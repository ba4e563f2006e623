# mimir_bridge

A verified library around the Mimir knowledge base. An agent asks Mimir for project context,
searches and documentation by running a Python script, the bridge, with a JSON request on its
standard input and a JSON answer on its standard output. The library decides what is sent, how
the bridge is found, and what is made of whatever comes back; `app/` touches files, processes
and the environment for it.

| file | what it holds |
| --- | --- |
| `src/text.rs` | decimal numerals, joining, trimming, decoding, excerpts |
| `src/json.rs` | JSON values as plain data, and how they are read |
| `src/exchange.rs` | the exchange of JSON values with `serde_json` |
| `src/response.rs` | the answers of the bridge, formatted for an agent |
| `src/bridge.rs` | requests to the bridge, and the outcomes of its runs |
| `src/tool.rs` | the tool that an agent calls |
| `src/enrich.rs` | the context that is added to a turn |
| `src/locate.rs` | the searches for the bridge and for a Python, and the environment |
| `src/agent.rs` | the prompts of an agent |
| `src/logging.rs` | the lines and events that are logged |

Every executable function of `src/` has a contract that Verus proves. The functions marked
`external_body` and the one `assume_specification` are the exception: they call `serde_json` or
std, and their doc comments say what is taken on trust. The public proof functions whose names
start with `law_` state what holds of several functions together.
