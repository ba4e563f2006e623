//! The tool by which an agent queries the Mimir knowledge base.
use crate::bridge;
use crate::bridge::{request_text, BridgeOutcome, OutcomeView, BRIDGE_TIMEOUT_SECS};
use crate::exchange;
use crate::exchange::read;
use crate::json;
use crate::json::{array_of_texts, object, Json, JsonView};
use crate::logging;
use crate::logging::{Event, EventView, Level};
use crate::response;
use crate::response::{format_mimir_response, str_or};
use crate::text;
use crate::text::{byte_len_text, decimal_text, from_utf8_lossy, long_decimal_text};
use vstd::prelude::*;

verus! {

/// The Mimir tool.
#[derive(Debug)]
pub struct MimirTool;

/// What an agent hands the tool: an action and, it may be, its parameters.
#[derive(Debug)]
pub struct MimirInput {
    pub action: String,
    pub params: Option<Json>,
}

/// What the tool hands back: a text, a title, and the answer of the bridge as it came.
#[derive(Debug)]
pub struct ToolOutput {
    pub output: String,
    pub title: Option<String>,
    pub metadata: Option<Json>,
}

/// The output that a [`ToolOutput`] stands for.
#[verifier::ext_equal]
pub struct ToolOutputView {
    pub output: Seq<char>,
    pub title: Option<Seq<char>>,
    pub metadata: Option<JsonView>,
}

impl View for ToolOutput {
    type V = ToolOutputView;

    open spec fn view(&self) -> ToolOutputView {
        ToolOutputView {
            output: self.output@,
            title: match self.title {
                Some(title) => Some(title@),
                None => None,
            },
            metadata: bridge::owned_value(self.metadata),
        }
    }
}

impl ToolOutput {
    /// An output with neither a title nor an answer of the bridge.
    pub fn new(output: String) -> (new: ToolOutput)
        ensures
            new@ == (ToolOutputView { output: output@, title: None, metadata: None }),
    {
        ToolOutput { output, title: None, metadata: None }
    }

    /// The output with a title.
    pub fn with_title(self, title: String) -> (titled: ToolOutput)
        ensures
            titled@ == (ToolOutputView { title: Some(title@), ..self@ }),
    {
        ToolOutput { output: self.output, title: Some(title), metadata: self.metadata }
    }

    /// The output with an answer of the bridge.
    pub fn with_metadata(self, metadata: Json) -> (with: ToolOutput)
        ensures
            with@ == (ToolOutputView { metadata: Some(metadata@), ..self@ }),
    {
        ToolOutput { output: self.output, title: self.title, metadata: Some(metadata) }
    }
}

/// The actions that the tool offers.
pub open spec fn actions() -> Seq<Seq<char>> {
    seq![
        "enrich_task"@,
        "search"@,
        "query"@,
        "rag_workflow"@,
        "knowledge_agent"@,
        "reindex"@,
        "remove_file"@,
        "stats"@,
        "task_health"@,
        "sdk_cache_get"@,
        "sdk_cache_list"@,
        "cache_stats"@,
        "cache_clear"@,
        "cache_cleanup"@,
    ]
}

/// The schema of a property with a type and a description.
pub open spec fn property(kind: Seq<char>, description: Seq<char>) -> JsonView {
    JsonView::Object(
        json::object_of(
            seq![("type"@, JsonView::Text(kind)), ("description"@, JsonView::Text(description))],
        ),
    )
}

/// The schemas of the parameters of the actions.
pub open spec fn params_properties() -> JsonView {
    JsonView::Object(
        json::object_of(
            seq![
                ("task"@, property("string"@, "Task description for enrich_task."@)),
                ("query"@, property("string"@, "Search/query text."@)),
                ("question"@, property("string"@, "Question for query/knowledge_agent."@)),
                ("top_k"@, property("integer"@, "Number of results (default: 5)."@)),
                ("library"@, property("string"@, "Library name for sdk_cache_get."@)),
                (
                    "topic"@,
                    property("string"@, "Topic for sdk_cache_get (default: general)."@),
                ),
                ("file_path"@, property("string"@, "File path for remove_file."@)),
                (
                    "response_shape"@,
                    property("string"@, "JSON schema for rag_workflow structured output."@),
                ),
                ("force"@, property("boolean"@, "Force reindex (default: false)."@)),
            ],
        ),
    )
}

/// The schema of the parameters.
pub open spec fn params_schema() -> JsonView {
    JsonView::Object(
        json::object_of(
            seq![
                ("type"@, JsonView::Text("object"@)),
                ("description"@, JsonView::Text("Action-specific parameters."@)),
                ("properties"@, params_properties()),
            ],
        ),
    )
}

/// Some texts as an array.
pub open spec fn text_array(texts: Seq<Seq<char>>) -> JsonView {
    JsonView::Array(Seq::new(texts.len(), |i: int| JsonView::Text(texts[i])))
}

/// The schema of the action.
pub open spec fn action_schema() -> JsonView {
    JsonView::Object(
        json::object_of(
            seq![
                ("type"@, JsonView::Text("string"@)),
                ("enum"@, text_array(actions())),
                ("description"@, JsonView::Text("Action to perform."@)),
            ],
        ),
    )
}

/// The schema of what an agent hands the tool, with `intent` for the schema of the intent.
pub open spec fn input_schema(intent: JsonView) -> JsonView {
    JsonView::Object(
        json::object_of(
            seq![
                ("type"@, JsonView::Text("object"@)),
                (
                    "properties"@,
                    JsonView::Object(
                        json::object_of(
                            seq![
                                ("intent"@, intent),
                                ("action"@, action_schema()),
                                ("params"@, params_schema()),
                            ],
                        ),
                    ),
                ),
                ("required"@, text_array(seq!["action"@])),
            ],
        ),
    )
}

fn new_text(text: &str) -> (value: Json)
    ensures
        value@ == JsonView::Text(text@),
{
    Json::Text(text.to_owned())
}

fn new_property(kind: &str, description: &str) -> (value: Json)
    ensures
        value@ == property(kind@, description@),
{
    let fields = vec![
        ("type".to_owned(), new_text(kind)),
        ("description".to_owned(), new_text(description)),
    ];
    assert(json::pairs(fields@) == seq![
        ("type"@, JsonView::Text(kind@)),
        ("description"@, JsonView::Text(description@)),
    ]);
    object(fields)
}

fn new_params_properties() -> (value: Json)
    ensures
        value@ == params_properties(),
{
    let fields = vec![
        ("task".to_owned(), new_property("string", "Task description for enrich_task.")),
        ("query".to_owned(), new_property("string", "Search/query text.")),
        ("question".to_owned(), new_property("string", "Question for query/knowledge_agent.")),
        ("top_k".to_owned(), new_property("integer", "Number of results (default: 5).")),
        ("library".to_owned(), new_property("string", "Library name for sdk_cache_get.")),
        (
            "topic".to_owned(),
            new_property("string", "Topic for sdk_cache_get (default: general)."),
        ),
        ("file_path".to_owned(), new_property("string", "File path for remove_file.")),
        (
            "response_shape".to_owned(),
            new_property("string", "JSON schema for rag_workflow structured output."),
        ),
        ("force".to_owned(), new_property("boolean", "Force reindex (default: false).")),
    ];
    assert(json::pairs(fields@) == seq![
        ("task"@, property("string"@, "Task description for enrich_task."@)),
        ("query"@, property("string"@, "Search/query text."@)),
        ("question"@, property("string"@, "Question for query/knowledge_agent."@)),
        ("top_k"@, property("integer"@, "Number of results (default: 5)."@)),
        ("library"@, property("string"@, "Library name for sdk_cache_get."@)),
        ("topic"@, property("string"@, "Topic for sdk_cache_get (default: general)."@)),
        ("file_path"@, property("string"@, "File path for remove_file."@)),
        (
            "response_shape"@,
            property("string"@, "JSON schema for rag_workflow structured output."@),
        ),
        ("force"@, property("boolean"@, "Force reindex (default: false)."@)),
    ]);
    object(fields)
}

fn new_params_schema() -> (value: Json)
    ensures
        value@ == params_schema(),
{
    let fields = vec![
        ("type".to_owned(), new_text("object")),
        ("description".to_owned(), new_text("Action-specific parameters.")),
        ("properties".to_owned(), new_params_properties()),
    ];
    assert(json::pairs(fields@) == seq![
        ("type"@, JsonView::Text("object"@)),
        ("description"@, JsonView::Text("Action-specific parameters."@)),
        ("properties"@, params_properties()),
    ]);
    object(fields)
}

fn new_actions() -> (value: Json)
    ensures
        value@ == text_array(actions()),
{
    let names = vec![
        "enrich_task".to_owned(),
        "search".to_owned(),
        "query".to_owned(),
        "rag_workflow".to_owned(),
        "knowledge_agent".to_owned(),
        "reindex".to_owned(),
        "remove_file".to_owned(),
        "stats".to_owned(),
        "task_health".to_owned(),
        "sdk_cache_get".to_owned(),
        "sdk_cache_list".to_owned(),
        "cache_stats".to_owned(),
        "cache_clear".to_owned(),
        "cache_cleanup".to_owned(),
    ];
    let value = array_of_texts(names);
    assert(value@->Array_0 =~= text_array(actions())->Array_0);
    value
}

fn new_action_schema() -> (value: Json)
    ensures
        value@ == action_schema(),
{
    let fields = vec![
        ("type".to_owned(), new_text("string")),
        ("enum".to_owned(), new_actions()),
        ("description".to_owned(), new_text("Action to perform.")),
    ];
    assert(json::pairs(fields@) == seq![
        ("type"@, JsonView::Text("string"@)),
        ("enum"@, text_array(actions())),
        ("description"@, JsonView::Text("Action to perform."@)),
    ]);
    object(fields)
}

impl MimirTool {
    pub fn new() -> (tool: MimirTool)
        ensures
            tool == MimirTool,
    {
        MimirTool
    }

    /// The name by which an agent calls the tool.
    pub fn name(&self) -> (name: &str)
        ensures
            name@ == "mimir"@,
    {
        "mimir"
    }

    /// What an agent is told of the tool.
    pub fn description(&self) -> (description: &str)
        ensures
            description@
                == "Query the Mimir project knowledge base. Use enrich_task before coding tasks to get project context. Use search for semantic code search. Use sdk_cache_get for library documentation."@,
    {
        "Query the Mimir project knowledge base. Use enrich_task before coding tasks to get project context. Use search for semantic code search. Use sdk_cache_get for library documentation."
    }

    /// The schema of what an agent hands the tool. `intent` is the schema of the property
    /// that all tools of the agent share.
    pub fn parameters_schema(&self, intent: Json) -> (schema: Json)
        ensures
            schema@ == input_schema(intent@),
    {
        let properties = vec![
            ("intent".to_owned(), intent),
            ("action".to_owned(), new_action_schema()),
            ("params".to_owned(), new_params_schema()),
        ];
        assert(json::pairs(properties@) == seq![
            ("intent"@, intent@),
            ("action"@, action_schema()),
            ("params"@, params_schema()),
        ]);
        let required = array_of_texts(vec!["action".to_owned()]);
        assert(required@->Array_0 =~= text_array(seq!["action"@])->Array_0);
        let fields = vec![
            ("type".to_owned(), new_text("object")),
            ("properties".to_owned(), object(properties)),
            ("required".to_owned(), required),
        ];
        assert(json::pairs(fields@) =~= seq![
            ("type"@, JsonView::Text("object"@)),
            ("properties"@, JsonView::Object(json::object_of(json::pairs(properties@)))),
            ("required"@, text_array(seq!["action"@])),
        ]);
        object(fields)
    }
}

/// The title of what is handed back for `action`.
pub open spec fn title_of(action: Seq<char>) -> Seq<char> {
    "mimir:"@ + action
}

/// An output with a title and no answer of the bridge.
pub open spec fn titled(output: Seq<char>, title: Seq<char>) -> ToolOutputView {
    ToolOutputView { output, title: Some(title), metadata: None }
}

/// What is handed back where there is no bridge.
pub open spec fn not_configured() -> ToolOutputView {
    titled(
        "Mimir not configured in this workspace.\n\nTo set up Mimir:\n1. Clone Mimir: git clone <mimir-repo> ~/Documents/Mimir\n2. In your project: python ~/Documents/Mimir/mimir.py init\n3. This creates .mimir/config.json and sets up the knowledge base."@,
        "Mimir: Not configured"@,
    )
}

/// What comes of a call of the tool before the bridge runs.
#[derive(Debug)]
pub enum Preparation {
    /// There is no bridge; this is handed back.
    Reply(ToolOutput),
    /// The bridge is to run on this request, for this action.
    Launch { action: String, request: String },
}

/// Prepares a call of the tool: `located` says whether the bridge was found. Where it was,
/// it is to run on the request; else the reply says how to set Mimir up. There is no call
/// for which that fails.
pub fn prepare(input: MimirInput, located: bool) -> (result: Result<Preparation, String>)
    ensures
        result is Ok,
        !located ==> (result matches Ok(Preparation::Reply(reply)) && reply@ == not_configured()),
        located ==> (result matches Ok(Preparation::Launch { action, request }) && action@
            == input.action@ && request@ == bridge::request_line(
            input.action@,
            bridge::owned_value(input.params),
        )),
{
    if !located {
        let reply = ToolOutput::new(
            "Mimir not configured in this workspace.\n\nTo set up Mimir:\n1. Clone Mimir: git clone <mimir-repo> ~/Documents/Mimir\n2. In your project: python ~/Documents/Mimir/mimir.py init\n3. This creates .mimir/config.json and sets up the knowledge base.".to_owned(),
        ).with_title("Mimir: Not configured".to_owned());
        return Ok(Preparation::Reply(reply));
    }
    match request_text(input.action.as_str(), input.params) {
        Ok(request) => Ok(Preparation::Launch { action: input.action, request }),
        Err(message) => Err(message),
    }
}

/// What comes of a run of the bridge: what is handed back, and what is logged.
#[derive(Debug)]
pub struct Report {
    pub output: ToolOutput,
    pub event: Option<Event>,
}

/// An event of the tool.
pub open spec fn tool_event(level: Level, fields: Seq<(Seq<char>, Seq<char>)>) -> EventView {
    EventView { level, name: "MIMIR_TOOL"@, fields }
}

/// What is logged before the bridge runs.
pub open spec fn launch_event(
    action: Seq<char>,
    session_id: Seq<char>,
    tool_call_id: Seq<char>,
    bridge: Seq<char>,
) -> EventView {
    tool_event(
        Level::Info,
        seq![
            ("phase"@, "start"@),
            ("action"@, action),
            ("session_id"@, session_id),
            ("tool_call_id"@, tool_call_id),
            ("bridge"@, bridge),
        ],
    )
}

/// What is logged of an answer of the bridge: its status, and the size in bytes of what is
/// handed back.
pub open spec fn answer_event(action: Seq<char>, value: JsonView, elapsed_ms: nat) -> EventView {
    tool_event(
        Level::Info,
        seq![
            ("phase"@, "done"@),
            ("action"@, action),
            ("status"@, response::text_or(value.text_at("status"@), "unknown"@)),
            ("elapsed_ms"@, text::decimal(elapsed_ms)),
            (
                "output_bytes"@,
                text::decimal(text::byte_len(response::response_text(action, value))),
            ),
        ],
    )
}

/// What is logged of a run without an answer.
pub open spec fn error_event(
    phase: Seq<char>,
    action: Seq<char>,
    error: Seq<char>,
    elapsed_ms: nat,
) -> EventView {
    tool_event(
        Level::Warn,
        seq![
            ("phase"@, phase),
            ("action"@, action),
            ("error"@, error),
            ("elapsed_ms"@, text::decimal(elapsed_ms)),
        ],
    )
}

/// What is logged of a run that took too long.
pub open spec fn timeout_event(action: Seq<char>, elapsed_ms: nat) -> EventView {
    tool_event(
        Level::Warn,
        seq![
            ("phase"@, "timeout"@),
            ("action"@, action),
            ("timeout_secs"@, text::decimal(BRIDGE_TIMEOUT_SECS as nat)),
            ("elapsed_ms"@, text::decimal(elapsed_ms)),
        ],
    )
}

/// What is logged of a run that has come to its end; nothing where its output is no JSON.
pub open spec fn exit_event(
    action: Seq<char>,
    success: bool,
    status: Seq<char>,
    stdout: Seq<char>,
    stderr: Seq<char>,
    elapsed_ms: nat,
) -> Option<EventView> {
    if !success && text::is_blank(stdout) {
        Some(error_event("error"@, action, failure_message(status, stderr), elapsed_ms))
    } else {
        match exchange::parsed(stdout) {
            Ok(value) => Some(answer_event(action, value, elapsed_ms)),
            Err(_) => None,
        }
    }
}

/// What is logged of a run of the bridge.
pub open spec fn outcome_event(
    action: Seq<char>,
    outcome: OutcomeView,
    elapsed_ms: nat,
) -> Option<EventView> {
    match outcome {
        OutcomeView::Exited { success, status, stdout, stderr } => exit_event(
            action,
            success,
            status,
            text::lossy_text(stdout),
            text::lossy_text(stderr),
            elapsed_ms,
        ),
        OutcomeView::Failed(message) => Some(
            error_event("spawn_error"@, action, message, elapsed_ms),
        ),
        OutcomeView::TimedOut => Some(timeout_event(action, elapsed_ms)),
    }
}

/// What is handed back for what the bridge wrote and what was read in it.
pub open spec fn answer_report(
    action: Seq<char>,
    answer: Result<JsonView, Seq<char>>,
    stdout: Seq<char>,
    stderr: Seq<char>,
) -> ToolOutputView {
    match answer {
        Ok(value) => ToolOutputView {
            output: response::response_text(action, value),
            title: Some(title_of(action)),
            metadata: Some(value),
        },
        Err(message) => titled(
            "Failed to parse Mimir response: "@ + message + "\n\nRaw output:\n"@ + stdout
                + "\n\nStderr:\n"@ + stderr,
            title_of(action),
        ),
    }
}

/// What is said of a bridge that has failed without writing anything: what it wrote as an
/// error, or else its exit status.
pub open spec fn failure_message(status: Seq<char>, stderr: Seq<char>) -> Seq<char> {
    if text::is_blank(stderr) {
        "Bridge exited with code "@ + status
    } else {
        stderr
    }
}

/// What is handed back when the bridge has run to its end.
pub open spec fn exit_report(
    action: Seq<char>,
    success: bool,
    status: Seq<char>,
    stdout: Seq<char>,
    stderr: Seq<char>,
) -> ToolOutputView {
    if !success && text::is_blank(stdout) {
        titled("Mimir bridge error: "@ + failure_message(status, stderr), title_of(action))
    } else {
        answer_report(action, exchange::parsed(stdout), stdout, stderr)
    }
}

/// What is handed back for a run of the bridge.
pub open spec fn outcome_report(action: Seq<char>, outcome: OutcomeView) -> ToolOutputView {
    match outcome {
        OutcomeView::Exited { success, status, stdout, stderr } => exit_report(
            action,
            success,
            status,
            text::lossy_text(stdout),
            text::lossy_text(stderr),
        ),
        OutcomeView::Failed(message) => titled(
            "Failed to run Mimir bridge: "@ + message,
            title_of(action),
        ),
        OutcomeView::TimedOut => titled(
            "Mimir bridge timed out after "@ + text::decimal(BRIDGE_TIMEOUT_SECS as nat)
                + "s. Try a simpler query or check if the index is built."@,
            title_of(action) + " (timeout)"@,
        ),
    }
}

/// The view of what was read in a text.
pub open spec fn answer_view(answer: Result<Json, String>) -> Result<JsonView, Seq<char>> {
    match answer {
        Ok(value) => Ok(value@),
        Err(message) => Err(message@),
    }
}

fn new_title(action: &str) -> (title: String)
    ensures
        title@ == title_of(action@),
{
    let mut title = "mimir:".to_owned();
    title.append(action);
    title
}

/// Whether a text holds nothing but white space.
fn blank(text: &str) -> (blank: bool)
    ensures
        blank == text::is_blank(text@),
{
    proof {
        text::lemma_blank_trims_to_nothing(text@);
    }
    text.trim().is_empty()
}

fn new_event(level: Level, fields: Vec<(String, String)>) -> (event: Event)
    ensures
        event@ == tool_event(level, text::entries(fields@)),
{
    Event { level, name: "MIMIR_TOOL".to_owned(), fields }
}

/// The event to log before the bridge runs.
pub fn start_event(action: &str, session_id: &str, tool_call_id: &str, bridge: &str) -> (event:
    Event)
    ensures
        event@ == launch_event(action@, session_id@, tool_call_id@, bridge@),
{
    let fields = vec![
        ("phase".to_owned(), "start".to_owned()),
        ("action".to_owned(), action.to_owned()),
        ("session_id".to_owned(), session_id.to_owned()),
        ("tool_call_id".to_owned(), tool_call_id.to_owned()),
        ("bridge".to_owned(), bridge.to_owned()),
    ];
    assert(text::entries(fields@) == seq![
        ("phase"@, "start"@),
        ("action"@, action@),
        ("session_id"@, session_id@),
        ("tool_call_id"@, tool_call_id@),
        ("bridge"@, bridge@),
    ]);
    new_event(Level::Info, fields)
}

fn done_event(action: &str, value: &Json, formatted: &str, elapsed_ms: u128) -> (event: Event)
    requires
        formatted@ == response::response_text(action@, value@),
    ensures
        event@ == answer_event(action@, value@, elapsed_ms as nat),
{
    let fields = vec![
        ("phase".to_owned(), "done".to_owned()),
        ("action".to_owned(), action.to_owned()),
        ("status".to_owned(), str_or(value.text_at("status"), "unknown").to_owned()),
        ("elapsed_ms".to_owned(), long_decimal_text(elapsed_ms)),
        ("output_bytes".to_owned(), byte_len_text(formatted)),
    ];
    assert(text::entries(fields@) == seq![
        ("phase"@, "done"@),
        ("action"@, action@),
        ("status"@, response::text_or(value@.text_at("status"@), "unknown"@)),
        ("elapsed_ms"@, text::decimal(elapsed_ms as nat)),
        ("output_bytes"@, text::decimal(text::byte_len(formatted@))),
    ]);
    new_event(Level::Info, fields)
}

fn failure_event(phase: &str, action: &str, error: &str, elapsed_ms: u128) -> (event: Event)
    ensures
        event@ == error_event(phase@, action@, error@, elapsed_ms as nat),
{
    let fields = vec![
        ("phase".to_owned(), phase.to_owned()),
        ("action".to_owned(), action.to_owned()),
        ("error".to_owned(), error.to_owned()),
        ("elapsed_ms".to_owned(), long_decimal_text(elapsed_ms)),
    ];
    assert(text::entries(fields@) == seq![
        ("phase"@, phase@),
        ("action"@, action@),
        ("error"@, error@),
        ("elapsed_ms"@, text::decimal(elapsed_ms as nat)),
    ]);
    new_event(Level::Warn, fields)
}

fn late_event(action: &str, elapsed_ms: u128) -> (event: Event)
    ensures
        event@ == timeout_event(action@, elapsed_ms as nat),
{
    let fields = vec![
        ("phase".to_owned(), "timeout".to_owned()),
        ("action".to_owned(), action.to_owned()),
        ("timeout_secs".to_owned(), decimal_text(BRIDGE_TIMEOUT_SECS)),
        ("elapsed_ms".to_owned(), long_decimal_text(elapsed_ms)),
    ];
    assert(text::entries(fields@) == seq![
        ("phase"@, "timeout"@),
        ("action"@, action@),
        ("timeout_secs"@, text::decimal(BRIDGE_TIMEOUT_SECS as nat)),
        ("elapsed_ms"@, text::decimal(elapsed_ms as nat)),
    ]);
    new_event(Level::Warn, fields)
}

/// Reports what the bridge wrote, once it is known what was read in it.
pub fn report_answer(
    action: &str,
    answer: Result<Json, String>,
    stdout: &str,
    stderr: &str,
    elapsed_ms: u128,
) -> (report: Report)
    ensures
        report.output@ == answer_report(action@, answer_view(answer), stdout@, stderr@),
        logging::event_view(report.event) == match answer {
            Ok(value) => Some(answer_event(action@, value@, elapsed_ms as nat)),
            Err(_) => None,
        },
{
    match answer {
        Ok(value) => {
            let formatted = format_mimir_response(action, &value);
            let event = done_event(action, &value, formatted.as_str(), elapsed_ms);
            let output = ToolOutput::new(formatted).with_title(new_title(action));
            Report { output: output.with_metadata(value), event: Some(event) }
        },
        Err(message) => {
            let mut output = "Failed to parse Mimir response: ".to_owned();
            output.append(message.as_str());
            output.append("\n\nRaw output:\n");
            output.append(stdout);
            output.append("\n\nStderr:\n");
            output.append(stderr);
            Report { output: ToolOutput::new(output).with_title(new_title(action)), event: None }
        },
    }
}

/// Reports a run of the bridge that has come to its end, from the texts that it wrote.
pub fn report_exit(
    action: &str,
    success: bool,
    status: &str,
    stdout: &str,
    stderr: &str,
    elapsed_ms: u128,
) -> (report: Report)
    ensures
        report.output@ == exit_report(action@, success, status@, stdout@, stderr@),
        logging::event_view(report.event) == exit_event(
            action@,
            success,
            status@,
            stdout@,
            stderr@,
            elapsed_ms as nat,
        ),
{
    if !success && blank(stdout) {
        let error = if blank(stderr) {
            let mut error = "Bridge exited with code ".to_owned();
            error.append(status);
            error
        } else {
            stderr.to_owned()
        };
        let event = failure_event("error", action, error.as_str(), elapsed_ms);
        let mut output = "Mimir bridge error: ".to_owned();
        output.append(error.as_str());
        return Report {
            output: ToolOutput::new(output).with_title(new_title(action)),
            event: Some(event),
        };
    }
    report_answer(action, read(stdout), stdout, stderr, elapsed_ms)
}

/// Reports a run of the bridge that took `elapsed_ms` milliseconds.
pub fn report(action: &str, outcome: &BridgeOutcome, elapsed_ms: u128) -> (report: Report)
    ensures
        report.output@ == outcome_report(action@, outcome@),
        logging::event_view(report.event) == outcome_event(
            action@,
            outcome@,
            elapsed_ms as nat,
        ),
{
    match outcome {
        BridgeOutcome::Exited { success, status, stdout, stderr } => {
            let stdout = from_utf8_lossy(stdout);
            let stderr = from_utf8_lossy(stderr);
            report_exit(
                action,
                *success,
                status.as_str(),
                stdout.as_str(),
                stderr.as_str(),
                elapsed_ms,
            )
        },
        BridgeOutcome::Failed(message) => {
            let event = failure_event("spawn_error", action, message.as_str(), elapsed_ms);
            let mut output = "Failed to run Mimir bridge: ".to_owned();
            output.append(message.as_str());
            Report {
                output: ToolOutput::new(output).with_title(new_title(action)),
                event: Some(event),
            }
        },
        BridgeOutcome::TimedOut => {
            let mut output = "Mimir bridge timed out after ".to_owned();
            output.append(decimal_text(BRIDGE_TIMEOUT_SECS).as_str());
            output.append("s. Try a simpler query or check if the index is built.");
            let mut title = new_title(action);
            title.append(" (timeout)");
            Report {
                output: ToolOutput::new(output).with_title(title),
                event: Some(late_event(action, elapsed_ms)),
            }
        },
    }
}

/// The schema offers the actions, asks for the action and for nothing else, and passes on the
/// schema of the intent.
pub proof fn law_schema_offers_the_actions(intent: JsonView)
    ensures
        input_schema(intent).get("required"@) == Some(text_array(seq!["action"@])),
        input_schema(intent).get("properties"@) matches Some(properties) && {
            &&& properties.get("intent"@) == Some(intent)
            &&& properties.get("params"@) == Some(params_schema())
            &&& properties.get("action"@) matches Some(action) && action.get("enum"@) == Some(
                text_array(actions()),
            )
        },
{
    reveal_strlit("type");
    reveal_strlit("enum");
    reveal_strlit("description");
    reveal_strlit("properties");
    reveal_strlit("required");
    reveal_strlit("intent");
    reveal_strlit("action");
    reveal_strlit("params");
    assert("properties"@.len() != "required"@.len());
    assert("enum"@.len() != "description"@.len());
    assert("intent"@[0] != "action"@[0] && "intent"@[0] != "params"@[0]);
    assert("action"@[0] != "params"@[0]);
    let properties = seq![
        ("intent"@, intent),
        ("action"@, action_schema()),
        ("params"@, params_schema()),
    ];
    json::lemma_field(properties, 0);
    json::lemma_field(properties, 1);
    json::lemma_field(properties, 2);
    let action = seq![
        ("type"@, JsonView::Text("string"@)),
        ("enum"@, text_array(actions())),
        ("description"@, JsonView::Text("Action to perform."@)),
    ];
    json::lemma_field(action, 1);
    let all = seq![
        ("type"@, JsonView::Text("object"@)),
        ("properties"@, JsonView::Object(json::object_of(properties))),
        ("required"@, text_array(seq!["action"@])),
    ];
    json::lemma_field(all, 1);
    json::lemma_field(all, 2);
}

/// No action is offered twice.
pub proof fn law_actions_differ()
    ensures
        actions().no_duplicates(),
{
    reveal_strlit("enrich_task");
    reveal_strlit("search");
    reveal_strlit("query");
    reveal_strlit("rag_workflow");
    reveal_strlit("knowledge_agent");
    reveal_strlit("reindex");
    reveal_strlit("remove_file");
    reveal_strlit("stats");
    reveal_strlit("task_health");
    reveal_strlit("sdk_cache_get");
    reveal_strlit("sdk_cache_list");
    reveal_strlit("cache_stats");
    reveal_strlit("cache_clear");
    reveal_strlit("cache_cleanup");
    assert("cache_stats"@[6] != "cache_clear"@[6]);
    let all = actions();
    assert forall|i: int, j: int| 0 <= i < j < all.len() implies #[trigger] all[i]
        != #[trigger] all[j] by {
        if all[i].len() == all[j].len() && all[i][0] == all[j][0] {
            assert(all[i][6] != all[j][6]);
        }
    }
}

/// An action that the tool does not offer is answered in the generic way.
pub proof fn law_other_actions_are_generic(action: Seq<char>, answer: JsonView)
    requires
        !actions().contains(action),
    ensures
        response::answer_text(action, answer) == response::generic_text(answer),
{
    lemma_action_names();
    let all = actions();
    assert forall|i: int| 0 <= i < all.len() implies #[trigger] all[i] != action by {
        assert(all.contains(all[i]));
    }
}

/// What is written of an answer without fields, for each of the actions that the tool offers.
pub open spec fn texts_without_fields() -> Seq<Seq<char>> {
    seq![
        ""@,
        "No search results found."@,
        "No answer returned."@,
        "No response returned."@,
        "No response returned."@,
        "Reindex completed."@,
        "Remove file completed."@,
        "No stats available."@,
        "No health data."@,
        "## ? / general\n\nNo docs."@,
        "No cached SDKs."@,
        "No cache stats."@,
        "cache_clear completed."@,
        "cache_cleanup completed."@,
    ]
}

/// Each action that the tool offers has a format of its own, which shows on an answer without
/// fields; that answer is written out as it is for the actions that are not offered, and for
/// no others.
pub proof fn law_offered_actions_have_formats(action: Seq<char>)
    ensures
        forall|i: int|
            0 <= i < actions().len() ==> response::response_text(
                #[trigger] actions()[i],
                JsonView::Object(Map::empty()),
            ) == texts_without_fields()[i],
        response::response_text(action, JsonView::Object(Map::empty())) == "{}"@
            <==> !actions().contains(action),
{
    let empty = JsonView::Object(Map::empty());
    lemma_texts_without_fields();
    let all = actions();
    let texts = texts_without_fields();
    assert forall|i: int| 0 <= i < all.len() implies response::response_text(
        #[trigger] all[i],
        empty,
    ) == texts[i] by {
        lemma_text_without_fields(i);
    }
    if all.contains(action) {
        let i = choose|i: int| 0 <= i < all.len() && all[i] == action;
        lemma_text_without_fields(i);
    } else {
        law_other_actions_are_generic(action, empty);
        reveal_strlit("");
    }
}

/// The JSON that was read in the output of the bridge is handed back, with its format as the
/// text; where none was read, nothing is. `stdout` is the output of the bridge as text, and
/// `answer` what was read in it.
pub proof fn law_answer_handed_back(
    action: Seq<char>,
    outcome: OutcomeView,
    stdout: &str,
    answer: Result<Json, String>,
)
    requires
        outcome matches OutcomeView::Exited { stdout: bytes, .. } ==> stdout@ == text::lossy_text(
            bytes,
        ),
        call_ensures(read, (stdout,), answer),
    ensures
        match outcome {
            OutcomeView::Exited { .. } => match answer {
                Ok(value) => {
                    &&& outcome_report(action, outcome).metadata == Some(value@)
                    &&& outcome_report(action, outcome).output == response::response_text(
                        action,
                        value@,
                    )
                },
                Err(_) => outcome_report(action, outcome).metadata is None,
            },
            _ => outcome_report(action, outcome).metadata is None,
        },
{
}

/// A warning is logged where the bridge failed without writing anything, could not be waited
/// for or took too long, and nowhere else.
pub proof fn law_warnings(action: Seq<char>, outcome: OutcomeView, elapsed_ms: nat)
    ensures
        (outcome_event(action, outcome, elapsed_ms) matches Some(event) && event.level
            == Level::Warn) <==> match outcome {
            OutcomeView::Exited { success, stdout, .. } => !success && text::is_blank(
                text::lossy_text(stdout),
            ),
            _ => true,
        },
{
}

/// Whatever comes of a run, the title names the action.
pub proof fn law_title_names_the_action(action: Seq<char>, outcome: OutcomeView)
    ensures
        outcome_report(action, outcome).title matches Some(title) && title_of(action).is_prefix_of(
            title,
        ),
{
    let title = outcome_report(action, outcome).title->0;
    assert(title_of(action) == title.subrange(0, title_of(action).len() as int));
}

/// The actions by their places.
proof fn lemma_action_names()
    ensures
        actions().len() == 14,
        actions()[0] == "enrich_task"@,
        actions()[1] == "search"@,
        actions()[2] == "query"@,
        actions()[3] == "rag_workflow"@,
        actions()[4] == "knowledge_agent"@,
        actions()[5] == "reindex"@,
        actions()[6] == "remove_file"@,
        actions()[7] == "stats"@,
        actions()[8] == "task_health"@,
        actions()[9] == "sdk_cache_get"@,
        actions()[10] == "sdk_cache_list"@,
        actions()[11] == "cache_stats"@,
        actions()[12] == "cache_clear"@,
        actions()[13] == "cache_cleanup"@,
{
}

/// None of the texts is that of an object without fields.
proof fn lemma_texts_without_fields()
    ensures
        forall|i: int|
            0 <= i < texts_without_fields().len() ==> #[trigger] texts_without_fields()[i]
                != "{}"@,
{
    reveal_strlit("{}");
    reveal_strlit("");
    reveal_strlit("No search results found.");
    reveal_strlit("No answer returned.");
    reveal_strlit("No response returned.");
    reveal_strlit("Reindex completed.");
    reveal_strlit("Remove file completed.");
    reveal_strlit("No stats available.");
    reveal_strlit("No health data.");
    reveal_strlit("## ? / general\n\nNo docs.");
    reveal_strlit("No cached SDKs.");
    reveal_strlit("No cache stats.");
    reveal_strlit("cache_clear completed.");
    reveal_strlit("cache_cleanup completed.");
    let texts = texts_without_fields();
    assert forall|i: int| 0 <= i < texts.len() implies #[trigger] texts[i] != "{}"@ by {
        assert(texts[i].len() != "{}"@.len());
    }
}

/// What is written of an answer without fields to the action `i`.
proof fn lemma_text_without_fields(i: int)
    requires
        0 <= i < actions().len(),
    ensures
        response::response_text(actions()[i], JsonView::Object(Map::empty()))
            == texts_without_fields()[i],
{
    lemma_action_names();
    law_actions_differ();
    reveal_strlit("");
    reveal_strlit(" completed.");
    reveal_strlit("Reindex");
    reveal_strlit("Reindex completed.");
    reveal_strlit("Remove file");
    reveal_strlit("Remove file completed.");
    reveal_strlit("cache_clear");
    reveal_strlit("cache_clear completed.");
    reveal_strlit("cache_cleanup");
    reveal_strlit("cache_cleanup completed.");
    reveal_strlit("## ");
    reveal_strlit("?");
    reveal_strlit(" / ");
    reveal_strlit("general");
    reveal_strlit("\n\n");
    reveal_strlit("No docs.");
    reveal_strlit("## ? / general\n\nNo docs.");
    reveal_strlit("unknown");
    reveal_strlit("ok");
    reveal_strlit("no_results");
    assert("unknown"@.len() != "ok"@.len() && "unknown"@.len() != "no_results"@.len());
    assert("Reindex"@ + " completed."@ =~= "Reindex completed."@);
    assert("Remove file"@ + " completed."@ =~= "Remove file completed."@);
    assert("cache_clear"@ + " completed."@ =~= "cache_clear completed."@);
    assert("cache_cleanup"@ + " completed."@ =~= "cache_cleanup completed."@);
    assert("## "@ + "?"@ + " / "@ + "general"@ + "\n\n"@ + "No docs."@
        =~= "## ? / general\n\nNo docs."@);
}

/// An answer without an error is written in the format of its action, and the actions that are
/// completed without more say so under their label.
pub proof fn law_each_action_has_its_format(answer: JsonView)
    requires
        answer.text_at("error"@) is None,
    ensures
        response::response_text("enrich_task"@, answer) == response::enrich_task_text(answer),
        response::response_text("search"@, answer) == response::search_text(answer),
        response::response_text("query"@, answer) == (match answer.text_at("answer"@) {
            Some(text) => text,
            None => "No answer returned."@,
        }),
        response::response_text("rag_workflow"@, answer) == (match answer.text_at("answer"@) {
            Some(text) => text,
            None => "No response returned."@,
        }),
        response::response_text("knowledge_agent"@, answer) == response::response_text(
            "rag_workflow"@,
            answer,
        ),
        response::response_text("reindex"@, answer) == response::simple_text(answer, "Reindex"@),
        response::response_text("remove_file"@, answer) == response::simple_text(
            answer,
            "Remove file"@,
        ),
        response::response_text("stats"@, answer) == response::stats_text(answer),
        response::response_text("task_health"@, answer) == response::health_text(answer),
        response::response_text("sdk_cache_get"@, answer) == response::sdk_docs_text(answer),
        response::response_text("sdk_cache_list"@, answer) == response::sdk_list_text(answer),
        response::response_text("cache_stats"@, answer) == response::cache_stats_text(answer),
        response::response_text("cache_clear"@, answer) == response::simple_text(
            answer,
            "cache_clear"@,
        ),
        response::response_text("cache_cleanup"@, answer) == response::simple_text(
            answer,
            "cache_cleanup"@,
        ),
{
    lemma_action_names();
    law_actions_differ();
}

/// An answer without an error to an action that the tool does not offer is written in the
/// generic way, and an error comes through whole for every action.
pub proof fn law_any_action(action: Seq<char>, answer: JsonView)
    ensures
        answer.text_at("error"@) is None && !actions().contains(action) ==> response::response_text(
            action,
            answer,
        ) == response::generic_text(answer),
        answer.text_at("error"@) matches Some(error) ==> error.is_suffix_of(
            response::response_text(action, answer),
        ),
{
    if answer.text_at("error"@) is None {
        if !actions().contains(action) {
            law_other_actions_are_generic(action, answer);
        }
    } else {
        let error = answer.text_at("error"@)->0;
        let text = response::response_text(action, answer);
        assert(error =~= text.subrange(text.len() - error.len(), text.len() as int));
    }
}

/// The schema of a property gives its type and its description, and nothing else.
pub proof fn law_property_schema(kind: Seq<char>, description: Seq<char>)
    ensures
        property(kind, description).text_at("type"@) == Some(kind),
        property(kind, description).text_at("description"@) == Some(description),
        forall|key: Seq<char>|
            (#[trigger] property(kind, description).get(key)) is Some ==> key == "type"@ || key
                == "description"@,
{
    reveal_strlit("type");
    reveal_strlit("description");
    assert("type"@.len() != "description"@.len());
    let fields = seq![("type"@, JsonView::Text(kind)), ("description"@, JsonView::Text(description))];
    reveal_with_fuel(json::object_of, 3);
    assert(fields.drop_last().drop_last() =~= Seq::<(Seq<char>, JsonView)>::empty());
    assert(fields.drop_last().last() == ("type"@, JsonView::Text(kind)));
}

/// The schema is that of an object, whose action is a string and whose parameters are an object.
pub proof fn law_schema_types(intent: JsonView)
    ensures
        input_schema(intent).text_at("type"@) == Some("object"@),
        action_schema().text_at("type"@) == Some("string"@),
        action_schema().text_at("description"@) == Some("Action to perform."@),
        params_schema().text_at("type"@) == Some("object"@),
        params_schema().text_at("description"@) == Some("Action-specific parameters."@),
        params_schema().get("properties"@) == Some(params_properties()),
{
    reveal_strlit("type");
    reveal_strlit("enum");
    reveal_strlit("description");
    reveal_strlit("properties");
    reveal_strlit("required");
    assert("type"@[0] != "enum"@[0]);
    assert("type"@.len() != "description"@.len() && "type"@.len() != "properties"@.len());
    assert("type"@.len() != "required"@.len());
    assert("description"@.len() != "properties"@.len());
    let action = seq![
        ("type"@, JsonView::Text("string"@)),
        ("enum"@, text_array(actions())),
        ("description"@, JsonView::Text("Action to perform."@)),
    ];
    json::lemma_field(action, 0);
    json::lemma_field(action, 2);
    let params = seq![
        ("type"@, JsonView::Text("object"@)),
        ("description"@, JsonView::Text("Action-specific parameters."@)),
        ("properties"@, params_properties()),
    ];
    json::lemma_field(params, 0);
    json::lemma_field(params, 1);
    json::lemma_field(params, 2);
    let properties = JsonView::Object(
        json::object_of(
            seq![("intent"@, intent), ("action"@, action_schema()), ("params"@, params_schema())],
        ),
    );
    let all = seq![
        ("type"@, JsonView::Text("object"@)),
        ("properties"@, properties),
        ("required"@, text_array(seq!["action"@])),
    ];
    json::lemma_field(all, 0);
}

/// Each parameter is offered with its type and a description.
pub proof fn law_parameters_are_offered()
    ensures
        params_properties().get("task"@) == Some(
            property("string"@, "Task description for enrich_task."@),
        ),
        params_properties().get("query"@) == Some(property("string"@, "Search/query text."@)),
        params_properties().get("question"@) == Some(
            property("string"@, "Question for query/knowledge_agent."@),
        ),
        params_properties().get("top_k"@) == Some(
            property("integer"@, "Number of results (default: 5)."@),
        ),
        params_properties().get("library"@) == Some(
            property("string"@, "Library name for sdk_cache_get."@),
        ),
        params_properties().get("topic"@) == Some(
            property("string"@, "Topic for sdk_cache_get (default: general)."@),
        ),
        params_properties().get("file_path"@) == Some(
            property("string"@, "File path for remove_file."@),
        ),
        params_properties().get("response_shape"@) == Some(
            property("string"@, "JSON schema for rag_workflow structured output."@),
        ),
        params_properties().get("force"@) == Some(
            property("boolean"@, "Force reindex (default: false)."@),
        ),
{
    reveal_strlit("task");
    reveal_strlit("query");
    reveal_strlit("question");
    reveal_strlit("top_k");
    reveal_strlit("library");
    reveal_strlit("topic");
    reveal_strlit("file_path");
    reveal_strlit("response_shape");
    reveal_strlit("force");
    let fields = seq![
        ("task"@, property("string"@, "Task description for enrich_task."@)),
        ("query"@, property("string"@, "Search/query text."@)),
        ("question"@, property("string"@, "Question for query/knowledge_agent."@)),
        ("top_k"@, property("integer"@, "Number of results (default: 5)."@)),
        ("library"@, property("string"@, "Library name for sdk_cache_get."@)),
        ("topic"@, property("string"@, "Topic for sdk_cache_get (default: general)."@)),
        ("file_path"@, property("string"@, "File path for remove_file."@)),
        (
            "response_shape"@,
            property("string"@, "JSON schema for rag_workflow structured output."@),
        ),
        ("force"@, property("boolean"@, "Force reindex (default: false)."@)),
    ];
    assert forall|i: int, j: int| 0 <= i < j < fields.len() implies (#[trigger] fields[i]).0 != (
    #[trigger] fields[j]).0 by {
        if fields[i].0.len() == fields[j].0.len() && fields[i].0[0] == fields[j].0[0] {
            assert(fields[i].0[3] != fields[j].0[3]);
        }
    }
    assert forall|i: int| 0 <= i < fields.len() implies params_properties().get(
        (#[trigger] fields[i]).0,
    ) == Some(fields[i].1) by {
        json::lemma_field(fields, i);
    }
    assert(fields[0].0 == "task"@ && fields[1].0 == "query"@ && fields[2].0 == "question"@);
    assert(fields[3].0 == "top_k"@ && fields[4].0 == "library"@ && fields[5].0 == "topic"@);
    assert(fields[6].0 == "file_path"@ && fields[7].0 == "response_shape"@ && fields[8].0
        == "force"@);
}

/// The texts of an array are those that it was made of, in order.
pub proof fn law_array_of_texts(texts: Seq<Seq<char>>)
    ensures
        text_array(texts) matches JsonView::Array(items) && items.len() == texts.len() && forall|
            i: int,
        |
            0 <= i < items.len() ==> #[trigger] items[i] == JsonView::Text(texts[i]),
{
}

/// The title of what is handed back is the action behind the name of the tool, and says so where
/// the bridge took too long.
pub proof fn law_title(action: Seq<char>, outcome: OutcomeView, tool: MimirTool, name: &str)
    requires
        call_ensures(MimirTool::name, (&tool,), name),
    ensures
        outcome_report(action, outcome).title == Some(
            if outcome is TimedOut {
                name@ + seq![':'] + action + " (timeout)"@
            } else {
                name@ + seq![':'] + action
            },
        ),
{
    reveal_strlit("mimir");
    reveal_strlit("mimir:");
    assert("mimir"@ + seq![':'] =~= "mimir:"@);
}

/// Whatever the bridge wrote comes through whole where it is no JSON, with what kept it from
/// being read; of a bridge that failed and wrote nothing, its errors do, or else its exit status;
/// and of one that could not be waited for, the reason does.
pub proof fn law_failures_come_through(action: Seq<char>, outcome: OutcomeView)
    ensures
        ({
            let output = outcome_report(action, outcome).output;
            match outcome {
                OutcomeView::Exited { success, status, stdout: out, stderr: err } => {
                    let stdout = text::lossy_text(out);
                    let stderr = text::lossy_text(err);
                    &&& !success && text::is_blank(stdout) && !text::is_blank(stderr) ==> output
                        == "Mimir bridge error: "@ + stderr
                    &&& !success && text::is_blank(stdout) && text::is_blank(stderr) ==> output
                        == "Mimir bridge error: Bridge exited with code "@ + status
                    &&& success || !text::is_blank(stdout) ==> (exchange::parsed(stdout) matches Err(
                        message,
                    ) ==> output == "Failed to parse Mimir response: "@ + message
                        + "\n\nRaw output:\n"@ + stdout + "\n\nStderr:\n"@ + stderr)
                    &&& success || !text::is_blank(stdout) ==> (exchange::parsed(stdout) matches Ok(
                        value,
                    ) ==> output == response::response_text(action, value))
                },
                OutcomeView::Failed(message) => output == "Failed to run Mimir bridge: "@ + message,
                OutcomeView::TimedOut => output == "Mimir bridge timed out after "@ + text::decimal(
                    120,
                ) + "s. Try a simpler query or check if the index is built."@,
            }
        }),
{
    reveal_strlit("Mimir bridge error: ");
    reveal_strlit("Bridge exited with code ");
    reveal_strlit("Mimir bridge error: Bridge exited with code ");
    assert("Mimir bridge error: "@ + "Bridge exited with code "@
        =~= "Mimir bridge error: Bridge exited with code "@);
}

/// What is handed back without a bridge has its title, no answer, and the three steps that set
/// Mimir up, one to a line.
pub proof fn law_setting_up_is_explained()
    ensures
        not_configured().title == Some("Mimir: Not configured"@),
        not_configured().metadata is None,
        not_configured().output == text::joined(
            seq![
                "Mimir not configured in this workspace."@,
                Seq::empty(),
                "To set up Mimir:"@,
                "1. Clone Mimir: git clone <mimir-repo> ~/Documents/Mimir"@,
                "2. In your project: python ~/Documents/Mimir/mimir.py init"@,
                "3. This creates .mimir/config.json and sets up the knowledge base."@,
            ],
            seq!['\n'],
        ),
{
    reveal_strlit("Mimir not configured in this workspace.");
    reveal_strlit("To set up Mimir:");
    reveal_strlit("1. Clone Mimir: git clone <mimir-repo> ~/Documents/Mimir");
    reveal_strlit("2. In your project: python ~/Documents/Mimir/mimir.py init");
    reveal_strlit("3. This creates .mimir/config.json and sets up the knowledge base.");
    reveal_strlit(
        "Mimir not configured in this workspace.\n\nTo set up Mimir:\n1. Clone Mimir: git clone <mimir-repo> ~/Documents/Mimir\n2. In your project: python ~/Documents/Mimir/mimir.py init\n3. This creates .mimir/config.json and sets up the knowledge base.",
    );
    let lines = seq![
        "Mimir not configured in this workspace."@,
        Seq::<char>::empty(),
        "To set up Mimir:"@,
        "1. Clone Mimir: git clone <mimir-repo> ~/Documents/Mimir"@,
        "2. In your project: python ~/Documents/Mimir/mimir.py init"@,
        "3. This creates .mimir/config.json and sets up the knowledge base."@,
    ];
    reveal_with_fuel(text::joined, 6);
    assert(lines.drop_last().len() == 5);
    assert(lines.drop_last().drop_last().drop_last().drop_last().drop_last()[0]
        == "Mimir not configured in this workspace."@);
    let br = seq!['\n'];
    assert(text::joined(lines, br) == lines[0] + br + lines[1] + br + lines[2] + br + lines[3] + br
        + lines[4] + br + lines[5]);
    assert(not_configured().output =~= lines[0] + br + lines[1] + br + lines[2] + br + lines[3] + br
        + lines[4] + br + lines[5]);
}

/// What is logged of a run names the tool, the phase that it came to, the action and the time; of
/// an answer it gives the status and the size in bytes of what is handed back, of a failure the
/// error, and of a run that took too long how long was waited. Nothing is logged where the output
/// of the bridge was no JSON.
pub proof fn law_runs_are_logged(action: Seq<char>, outcome: OutcomeView, elapsed_ms: nat)
    ensures
        ({
            let logged = outcome_event(action, outcome, elapsed_ms);
            let elapsed = ("elapsed_ms"@, text::decimal(elapsed_ms));
            match outcome {
                OutcomeView::Exited { success, status, stdout: out, stderr: err } => {
                    let stdout = text::lossy_text(out);
                    let stderr = text::lossy_text(err);
                    if !success && text::is_blank(stdout) {
                        logged == Some(
                            EventView {
                                level: Level::Warn,
                                name: "MIMIR_TOOL"@,
                                fields: seq![
                                    ("phase"@, "error"@),
                                    ("action"@, action),
                                    (
                                        "error"@,
                                        if text::is_blank(stderr) {
                                            "Bridge exited with code "@ + status
                                        } else {
                                            stderr
                                        },
                                    ),
                                    elapsed,
                                ],
                            },
                        )
                    } else {
                        match exchange::parsed(stdout) {
                            Ok(value) => logged == Some(
                                EventView {
                                    level: Level::Info,
                                    name: "MIMIR_TOOL"@,
                                    fields: seq![
                                        ("phase"@, "done"@),
                                        ("action"@, action),
                                        (
                                            "status"@,
                                            match value.text_at("status"@) {
                                                Some(status) => status,
                                                None => "unknown"@,
                                            },
                                        ),
                                        elapsed,
                                        (
                                            "output_bytes"@,
                                            text::decimal(
                                                text::byte_len(
                                                    outcome_report(action, outcome).output,
                                                ),
                                            ),
                                        ),
                                    ],
                                },
                            ),
                            Err(_) => logged is None,
                        }
                    }
                },
                OutcomeView::Failed(message) => logged == Some(
                    EventView {
                        level: Level::Warn,
                        name: "MIMIR_TOOL"@,
                        fields: seq![
                            ("phase"@, "spawn_error"@),
                            ("action"@, action),
                            ("error"@, message),
                            elapsed,
                        ],
                    },
                ),
                OutcomeView::TimedOut => logged == Some(
                    EventView {
                        level: Level::Warn,
                        name: "MIMIR_TOOL"@,
                        fields: seq![
                            ("phase"@, "timeout"@),
                            ("action"@, action),
                            ("timeout_secs"@, text::decimal(120)),
                            elapsed,
                        ],
                    },
                ),
            }
        }),
{
}

/// What is logged before a run names the tool, the action, the session, the call and the script.
pub proof fn law_launch_is_logged(
    action: Seq<char>,
    session_id: Seq<char>,
    tool_call_id: Seq<char>,
    bridge: Seq<char>,
)
    ensures
        launch_event(action, session_id, tool_call_id, bridge) == (EventView {
            level: Level::Info,
            name: "MIMIR_TOOL"@,
            fields: seq![
                ("phase"@, "start"@),
                ("action"@, action),
                ("session_id"@, session_id),
                ("tool_call_id"@, tool_call_id),
                ("bridge"@, bridge),
            ],
        }),
{
}

/// The schemas have the fields that they are known by, and no others.
pub proof fn law_schema_has_nothing_else(intent: JsonView, key: Seq<char>)
    ensures
        input_schema(intent).get(key) is Some ==> key == "type"@ || key == "properties"@ || key
            == "required"@,
        input_schema(intent).get("properties"@) matches Some(properties) && (properties.get(key)
            is Some ==> key == "intent"@ || key == "action"@ || key == "params"@),
        action_schema().get(key) is Some ==> key == "type"@ || key == "enum"@ || key
            == "description"@,
        params_schema().get(key) is Some ==> key == "type"@ || key == "description"@ || key
            == "properties"@,
        params_properties().get(key) is Some ==> key == "task"@ || key == "query"@ || key
            == "question"@ || key == "top_k"@ || key == "library"@ || key == "topic"@ || key
            == "file_path"@ || key == "response_shape"@ || key == "force"@,
{
    law_schema_offers_the_actions(intent);
    reveal_strlit("properties");
    reveal_strlit("required");
    assert("properties"@.len() != "required"@.len());
    let inner = seq![
        ("intent"@, intent),
        ("action"@, action_schema()),
        ("params"@, params_schema()),
    ];
    let all = seq![
        ("type"@, JsonView::Text("object"@)),
        ("properties"@, JsonView::Object(json::object_of(inner))),
        ("required"@, text_array(seq!["action"@])),
    ];
    let action = seq![
        ("type"@, JsonView::Text("string"@)),
        ("enum"@, text_array(actions())),
        ("description"@, JsonView::Text("Action to perform."@)),
    ];
    let params = seq![
        ("type"@, JsonView::Text("object"@)),
        ("description"@, JsonView::Text("Action-specific parameters."@)),
        ("properties"@, params_properties()),
    ];
    json::lemma_field(all, 1);
    if json::object_of(all).contains_key(key) {
        json::lemma_key_of_a_field(all, key);
    }
    if json::object_of(inner).contains_key(key) {
        json::lemma_key_of_a_field(inner, key);
    }
    if json::object_of(action).contains_key(key) {
        json::lemma_key_of_a_field(action, key);
    }
    if json::object_of(params).contains_key(key) {
        json::lemma_key_of_a_field(params, key);
    }
    let offered = seq![
        ("task"@, property("string"@, "Task description for enrich_task."@)),
        ("query"@, property("string"@, "Search/query text."@)),
        ("question"@, property("string"@, "Question for query/knowledge_agent."@)),
        ("top_k"@, property("integer"@, "Number of results (default: 5)."@)),
        ("library"@, property("string"@, "Library name for sdk_cache_get."@)),
        ("topic"@, property("string"@, "Topic for sdk_cache_get (default: general)."@)),
        ("file_path"@, property("string"@, "File path for remove_file."@)),
        (
            "response_shape"@,
            property("string"@, "JSON schema for rag_workflow structured output."@),
        ),
        ("force"@, property("boolean"@, "Force reindex (default: false)."@)),
    ];
    if json::object_of(offered).contains_key(key) {
        json::lemma_key_of_a_field(offered, key);
    }
}

/// The bridge runs on the request for the action and the parameters of the call, and it runs
/// exactly where it was found; else nothing of the call matters.
pub proof fn law_calls_are_prepared(
    input: MimirInput,
    located: bool,
    result: Result<Preparation, String>,
)
    requires
        call_ensures(prepare, (input, located), result),
    ensures
        result matches Ok(prepared) && (prepared is Launch <==> located),
        result matches Ok(Preparation::Launch { action, request }) ==> action@ == input.action@
            && request@ == bridge::request_line(
            input.action@,
            match input.params {
                Some(params) => Some(params@),
                None => None,
            },
        ),
        result matches Ok(Preparation::Reply(reply)) ==> reply@ == not_configured(),
{
}

/// What the tool hands back stands for what it holds.
pub proof fn law_outputs(output: String, title: String, metadata: Json, answer: Result<Json, String>)
    ensures
        (ToolOutput { output, title: Some(title), metadata: Some(metadata) })@ == (ToolOutputView {
            output: output@,
            title: Some(title@),
            metadata: Some(metadata@),
        }),
        (ToolOutput { output, title: None, metadata: None })@ == (ToolOutputView {
            output: output@,
            title: None,
            metadata: None,
        }),
        match answer {
            Ok(value) => answer_view(answer) == Ok::<JsonView, Seq<char>>(value@),
            Err(message) => answer_view(answer) == Err::<JsonView, Seq<char>>(message@),
        },
{
}

/// An agent is told by the description what Mimir is, and when to use three of the actions that
/// the tool offers.
pub proof fn law_description(tool: MimirTool, description: &str)
    requires
        call_ensures(MimirTool::description, (&tool,), description),
    ensures
        description@ == "Query the Mimir project knowledge base."@ + " Use "@ + actions()[0]
            + " before coding tasks to get project context."@ + " Use "@ + actions()[1]
            + " for semantic code search."@ + " Use "@ + actions()[9]
            + " for library documentation."@,
{
    lemma_action_names();
    reveal_strlit(
        "Query the Mimir project knowledge base. Use enrich_task before coding tasks to get project context. Use search for semantic code search. Use sdk_cache_get for library documentation.",
    );
    reveal_strlit("Query the Mimir project knowledge base.");
    reveal_strlit(" Use ");
    reveal_strlit("enrich_task");
    reveal_strlit("search");
    reveal_strlit("sdk_cache_get");
    reveal_strlit(" before coding tasks to get project context.");
    reveal_strlit(" for semantic code search.");
    reveal_strlit(" for library documentation.");
    assert(description@ =~= "Query the Mimir project knowledge base."@ + " Use "@ + "enrich_task"@
        + " before coding tasks to get project context."@ + " Use "@ + "search"@
        + " for semantic code search."@ + " Use "@ + "sdk_cache_get"@
        + " for library documentation."@);
}

} // verus!
