//! What is sent to the Mimir bridge, and what comes back from its run.
use crate::exchange;
use crate::exchange::compact_text;
use crate::json;
use crate::json::{object, Json, JsonView};
use vstd::prelude::*;

verus! {

/// For how many seconds a run of the bridge is waited for.
pub const BRIDGE_TIMEOUT_SECS: u64 = 120;

/// How a run of the bridge ended.
#[derive(Debug)]
pub enum BridgeOutcome {
    /// It ran to its end: whether it succeeded, its exit status as it shows, and what it
    /// wrote.
    Exited { success: bool, status: String, stdout: Vec<u8>, stderr: Vec<u8> },
    /// Waiting for it failed, with this message.
    Failed(String),
    /// It took too long.
    TimedOut,
}

/// The outcome that a [`BridgeOutcome`] stands for.
pub enum OutcomeView {
    Exited { success: bool, status: Seq<char>, stdout: Seq<u8>, stderr: Seq<u8> },
    Failed(Seq<char>),
    TimedOut,
}

impl View for BridgeOutcome {
    type V = OutcomeView;

    open spec fn view(&self) -> OutcomeView {
        match self {
            BridgeOutcome::Exited { success, status, stdout, stderr } => OutcomeView::Exited {
                success: *success,
                status: status@,
                stdout: stdout@,
                stderr: stderr@,
            },
            BridgeOutcome::Failed(message) => OutcomeView::Failed(message@),
            BridgeOutcome::TimedOut => OutcomeView::TimedOut,
        }
    }
}

/// The value of an optional value that is owned.
pub open spec fn owned_value(value: Option<Json>) -> Option<JsonView> {
    match value {
        Some(value) => Some(value@),
        None => None,
    }
}

/// A request to the bridge: the action, and its parameters, which are an empty object where
/// none are given.
pub open spec fn request_of(action: Seq<char>, params: Option<JsonView>) -> JsonView {
    let params = match params {
        Some(params) => params,
        None => JsonView::Object(Map::empty()),
    };
    JsonView::Object(
        Map::empty().insert("action"@, JsonView::Text(action)).insert("params"@, params),
    )
}

/// Builds a request to the bridge.
pub fn request(action: &str, params: Option<Json>) -> (request: Json)
    ensures
        request@ == request_of(action@, owned_value(params)),
{
    let params = match params {
        Some(params) => params,
        None => {
            let fields: Vec<(String, Json)> = Vec::new();
            object(fields)
        },
    };
    let fields = vec![
        ("action".to_owned(), Json::Text(action.to_owned())),
        ("params".to_owned(), params),
    ];
    proof {
        reveal_with_fuel(json::object_of, 3);
        let pairs = json::pairs(fields@);
        assert(pairs.drop_last().drop_last() == Seq::<(Seq<char>, JsonView)>::empty());
        assert(pairs.drop_last().last() == ("action"@, JsonView::Text(action@)));
        assert(pairs.last() == ("params"@, params@));
    }
    object(fields)
}

/// The text of a request to the bridge.
pub open spec fn request_line(action: Seq<char>, params: Option<JsonView>) -> Seq<char> {
    exchange::compact(exchange::settled(request_of(action, params)))
}

/// Writes a request to the bridge. There is no request for which that fails.
pub fn request_text(action: &str, params: Option<Json>) -> (result: Result<String, String>)
    ensures
        result matches Ok(text) && text@ == request_line(action@, owned_value(params)),
{
    compact_text(&request(action, params))
}

/// A request names its action and gives its parameters, and nothing else.
pub proof fn law_request_fields(action: Seq<char>, params: Option<JsonView>)
    ensures
        request_of(action, params).text_at("action"@) == Some(action),
        params matches Some(given) ==> request_of(action, params).get("params"@) == Some(given),
        params is None ==> request_of(action, params).get("params"@) == Some(
            JsonView::Object(Map::empty()),
        ),
        forall|key: Seq<char>|
            key != "action"@ && key != "params"@ ==> (#[trigger] request_of(action, params).get(
                key,
            )) is None,
{
    reveal_strlit("action");
    reveal_strlit("params");
    assert("action"@[0] != "params"@[0]);
}

/// The text of a request is the JSON of the object with the action and the parameters, and of no
/// other: of any object that has just these two fields.
pub proof fn law_request_line(action: Seq<char>, params: JsonView, request: JsonView)
    requires
        request is Object,
        request.text_at("action"@) == Some(action),
        request.get("params"@) == Some(params),
        forall|key: Seq<char>|
            (#[trigger] request.get(key)) is Some ==> key == "action"@ || key == "params"@,
    ensures
        request_line(action, Some(params)) == exchange::compact(exchange::settled(request)),
        params == JsonView::Object(Map::empty()) ==> request_line(action, None)
            == exchange::compact(exchange::settled(request)),
{
    reveal_strlit("action");
    reveal_strlit("params");
    assert("action"@[0] != "params"@[0]);
    let fields = request->Object_0;
    let built = request_of(action, Some(params))->Object_0;
    assert forall|key: Seq<char>| fields.contains_key(key) <==> #[trigger] built.contains_key(
        key,
    ) by {
        assert(request.get(key) is Some <==> fields.contains_key(key));
    }
    assert(fields =~= built);
}

/// An outcome stands for what it holds.
pub proof fn law_outcomes(
    success: bool,
    status: String,
    stdout: Vec<u8>,
    stderr: Vec<u8>,
    value: Json,
)
    ensures
        (BridgeOutcome::Exited { success, status, stdout, stderr })@ == (OutcomeView::Exited {
            success,
            status: status@,
            stdout: stdout@,
            stderr: stderr@,
        }),
        BridgeOutcome::Failed(status)@ == OutcomeView::Failed(status@),
        BridgeOutcome::TimedOut@ == OutcomeView::TimedOut,
        owned_value(Some(value)) == Some(value@),
        owned_value(None) is None,
{
}

} // verus!
