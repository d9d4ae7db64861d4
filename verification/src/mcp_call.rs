//! Calling an MCP tool through the gateway: the bridge configuration a run
//! must carry, the request body and curl arguments, how the gateway's reply
//! is read, and the execution record of the call. The host writes the body
//! to a file and runs curl.
use vstd::prelude::*;
use crate::contracts::RunRequest;
use crate::execution::ActionExecution;
use crate::metadata::Metadata;
use crate::text::{
    dec, has_char, has_sub, last_char_at, parse_usize, parse_usize_spec, push_str, rsplit_once_char, take_chars,
    trim, trim_end, trimmed, trimmed_end, char_count, contains, usize_text,
};

verus! {

/// Why MCP results never come from the answer cache.
pub const CACHE_REASON: &'static str = "MCP 工具调用依赖外部服务实时结果，不使用回答缓存。";

/// The error when the run carries no gateway configuration.
pub const NOT_CONFIGURED: &'static str = "mcp_bridge_not_configured: Runtime 缺少 Gateway MCP 调用配置";

/// The error when the gateway's reply has no status line.
pub const MISSING_STATUS: &'static str = "mcp_call_failed: Gateway 响应缺少 HTTP 状态码";

/// How many characters of a reply the preview and answer show.
pub const MCP_PREVIEW_CHARS: usize = 1200;

/// Where and how to reach the gateway.
#[derive(Clone, Debug)]
pub struct MCPBridgeConfig {
    pub url: String,
    pub token: String,
}

/// The gateway configuration of a run: both hints present and non-empty.
pub open spec fn bridge_config_spec(hints: Map<Seq<char>, Seq<char>>) -> Option<(Seq<char>, Seq<char>)> {
    if hints.contains_key("mcp_gateway_url"@) && hints.contains_key("mcp_gateway_token"@)
        && hints["mcp_gateway_url"@].len() > 0 && hints["mcp_gateway_token"@].len() > 0 {
        Some((hints["mcp_gateway_url"@], hints["mcp_gateway_token"@]))
    } else {
        None
    }
}

/// The gateway configuration of a run, or the error that it has none.
pub fn mcp_bridge_config(request: &RunRequest) -> (r: Result<MCPBridgeConfig, String>)
    ensures
        match r {
            Ok(c) => bridge_config_spec(request.context_hints@) == Some((c.url@, c.token@)),
            Err(e) => bridge_config_spec(request.context_hints@) is None && e@ == NOT_CONFIGURED@,
        },
{
    let url = request.context_hints.get("mcp_gateway_url");
    let token = request.context_hints.get("mcp_gateway_token");
    match (url, token) {
        (Some(url), Some(token)) => {
            if !url.as_str().is_empty() && !token.as_str().is_empty() {
                return Ok(MCPBridgeConfig { url, token });
            }
        },
        _ => {},
    }
    Err(String::from_str(NOT_CONFIGURED))
}

/// What `serde_json::to_string` writes for a string: a JSON string literal.
pub uninterp spec fn json_string_text(s: Seq<char>) -> Seq<char>;

/// The JSON string literal of `s`, by `serde_json::to_string` on a `&str`.
/// Its contract names the result and claims no more: the escaping rules are
/// not restated here.
#[verifier::external_body]
pub(crate) fn json_string(s: &str) -> (r: String)
    ensures
        r@ == json_string_text(s@),
{
    serde_json::to_string(s).unwrap_or_default()
}

/// Whether `serde_json` reads the text as a JSON object.
pub uninterp spec fn json_text_is_object(text: Seq<char>) -> bool;

/// Whether the text parses, by `serde_json::from_str`, as a JSON value that
/// is an object. Its contract names the result and claims no more.
#[verifier::external_body]
fn is_json_object(text: &str) -> (r: bool)
    ensures
        r == json_text_is_object(text@),
{
    match serde_json::from_str::<serde_json::Value>(text) {
        Ok(serde_json::Value::Object(_)) => true,
        _ => false,
    }
}

/// The arguments sent for a call: the given JSON object, or an empty object.
pub open spec fn arguments_spec(arguments_json: Seq<char>) -> Seq<char> {
    if json_text_is_object(arguments_json) {
        trim(arguments_json)
    } else {
        "{}"@
    }
}

/// The arguments sent for a call (see `arguments_spec`).
pub fn mcp_arguments(arguments_json: &str) -> (r: String)
    ensures
        r@ == arguments_spec(arguments_json@),
{
    if is_json_object(arguments_json) {
        trimmed(arguments_json)
    } else {
        String::from_str("{}")
    }
}

/// The request body of a call: the server, tool and arguments with the
/// run's identity, as a JSON object with its keys in order.
pub open spec fn payload_spec(request: RunRequest, server_id: Seq<char>, tool_name: Seq<char>, arguments_json: Seq<char>) -> Seq<char> {
    "{\"arguments\":"@ + arguments_spec(arguments_json) + ",\"name\":"@ + json_string_text(tool_name) + ",\"run_id\":"@
        + json_string_text(request.run_id@) + ",\"server_id\":"@ + json_string_text(server_id) + ",\"session_id\":"@
        + json_string_text(request.session_id@) + ",\"trace_id\":"@ + json_string_text(request.trace_id@) + "}"@
}

fn push_field(out: &mut String, key: &str, value: &str)
    ensures
        final(out)@ == old(out)@ + key@ + json_string_text(value@),
{
    push_str(out, key);
    let v = json_string(value);
    push_str(out, v.as_str());
}

/// The request body of a call (see `payload_spec`).
pub fn mcp_payload(request: &RunRequest, server_id: &str, tool_name: &str, arguments_json: &str) -> (r: String)
    ensures
        r@ == payload_spec(*request, server_id@, tool_name@, arguments_json@),
{
    let mut out = String::from_str("{\"arguments\":");
    let args = mcp_arguments(arguments_json);
    push_str(&mut out, args.as_str());
    push_field(&mut out, ",\"name\":", tool_name);
    push_field(&mut out, ",\"run_id\":", request.run_id.as_str());
    push_field(&mut out, ",\"server_id\":", server_id);
    push_field(&mut out, ",\"session_id\":", request.session_id.as_str());
    push_field(&mut out, ",\"trace_id\":", request.trace_id.as_str());
    push_str(&mut out, "}");
    out
}

/// The arguments of the curl call that posts the body file to the gateway.
pub fn curl_args(bridge: &MCPBridgeConfig, body_path: &str) -> (r: Vec<String>)
    ensures
        r@.map_values(|a: String| a@) == seq![
            "-sS"@, "--max-time"@, "30"@, "-w"@, "\n%{http_code}"@, "-H"@, "Content-Type: application/json"@, "-H"@,
            "X-Local-Agent-Token: "@ + bridge.token@, "--data-binary"@, "@"@ + body_path@, bridge.url@,
        ],
{
    let mut token = String::from_str("X-Local-Agent-Token: ");
    push_str(&mut token, bridge.token.as_str());
    let mut body = String::from_str("@");
    push_str(&mut body, body_path);
    let mut r: Vec<String> = Vec::new();
    r.push(String::from_str("-sS"));
    r.push(String::from_str("--max-time"));
    r.push(String::from_str("30"));
    r.push(String::from_str("-w"));
    r.push(String::from_str("\n%{http_code}"));
    r.push(String::from_str("-H"));
    r.push(String::from_str("Content-Type: application/json"));
    r.push(String::from_str("-H"));
    r.push(token);
    r.push(String::from_str("--data-binary"));
    r.push(body);
    r.push(bridge.url.clone());
    assert(r@.map_values(|a: String| a@) =~= seq![
        "-sS"@, "--max-time"@, "30"@, "-w"@, "\n%{http_code}"@, "-H"@, "Content-Type: application/json"@, "-H"@,
        "X-Local-Agent-Token: "@ + bridge.token@, "--data-binary"@, "@"@ + body_path@, bridge.url@,
    ]);
    r
}

/// The error code of a refused call, read from the gateway's reply.
pub open spec fn error_code_spec(body: Seq<char>) -> Seq<char> {
    if has_sub(body, "not allowlisted"@) {
        "mcp_tool_not_allowlisted"@
    } else if has_sub(body, "requires confirmation"@) {
        "mcp_confirmation_required"@
    } else {
        "mcp_call_failed"@
    }
}

/// The error code of a refused call (see `error_code_spec`).
pub fn mcp_error_code(body: &str) -> (r: &'static str)
    ensures
        r@ == error_code_spec(body@),
{
    if contains(body, "not allowlisted") {
        return "mcp_tool_not_allowlisted";
    }
    if contains(body, "requires confirmation") {
        return "mcp_confirmation_required";
    }
    "mcp_call_failed"
}

/// The HTTP status read from the status line, as `parse::<u16>` reads it, or 0.
pub open spec fn status_spec(code: Seq<char>) -> nat {
    match parse_usize_spec(code) {
        Some(n) => if n <= 65535 { n } else { 0 },
        None => 0,
    }
}

/// The gateway's reply as curl printed it: the body, then the status line.
/// A status in the 2xx range gives the trimmed body, any other an error.
pub open spec fn curl_result_spec(output: Seq<char>) -> Result<Seq<char>, Seq<char>> {
    let t = trim_end(output);
    if !has_char(t, '\n') {
        Err(MISSING_STATUS@)
    } else {
        let body = t.take(last_char_at(t, '\n'));
        let status = status_spec(t.skip(last_char_at(t, '\n') + 1));
        if 200 <= status <= 299 {
            Ok(trim(body))
        } else {
            Err(error_code_spec(body) + ": "@ + "Gateway HTTP "@ + dec(status) + ": "@ + trim(body))
        }
    }
}

/// The gateway's reply as curl printed it (see `curl_result_spec`).
pub fn parse_curl_output(output: String) -> (r: Result<String, String>)
    ensures
        match r {
            Ok(b) => curl_result_spec(output@) == Ok::<Seq<char>, Seq<char>>(b@),
            Err(e) => curl_result_spec(output@) == Err::<Seq<char>, Seq<char>>(e@),
        },
{
    let t = trimmed_end(output.as_str());
    match rsplit_once_char(t.as_str(), '\n') {
        None => Err(String::from_str(MISSING_STATUS)),
        Some((body, code)) => {
            let status: usize = match parse_usize(code.as_str()) {
                Some(n) => if n <= 65535 { n } else { 0 },
                None => 0,
            };
            if 200 <= status && status <= 299 {
                Ok(trimmed(body.as_str()))
            } else {
                let mut out = String::from_str(mcp_error_code(body.as_str()));
                push_str(&mut out, ": ");
                push_str(&mut out, "Gateway HTTP ");
                let n = usize_text(status);
                push_str(&mut out, n.as_str());
                push_str(&mut out, ": ");
                let b = trimmed(body.as_str());
                push_str(&mut out, b.as_str());
                Err(out)
            }
        },
    }
}

/// The first `limit` characters of a text, with "..." when it was longer.
pub open spec fn truncate_spec(value: Seq<char>, limit: nat) -> Seq<char> {
    if value.len() > limit {
        value.take(limit as int) + "..."@
    } else {
        value
    }
}

/// The first `limit` characters of a text (see `truncate_spec`).
pub fn truncate(value: &str, limit: usize) -> (r: String)
    ensures
        r@ == truncate_spec(value@, limit as nat),
{
    let mut out = take_chars(value, limit);
    if char_count(value) > limit {
        push_str(&mut out, "...");
    }
    out
}

/// "`server/tool`" as the records show it.
pub open spec fn tool_label(server_id: Seq<char>, tool_name: Seq<char>) -> Seq<char> {
    "`"@ + server_id + "/"@ + tool_name + "`"@
}

/// The result summary of a call.
pub open spec fn result_summary_spec(server_id: Seq<char>, tool_name: Seq<char>, success: bool) -> Seq<char> {
    if success {
        "MCP 工具 "@ + tool_label(server_id, tool_name) + " 已返回结果。"@
    } else {
        "MCP 工具 "@ + tool_label(server_id, tool_name) + " 调用失败。"@
    }
}

/// The execution record of a call with its raw output and answer.
pub open spec fn mcp_execution_spec(
    e: ActionExecution,
    server_id: Seq<char>,
    tool_name: Seq<char>,
    raw_output: Seq<char>,
    final_answer: Seq<char>,
    success: bool,
) -> bool {
    &&& e.action_summary@ == "调用 MCP 工具："@ + server_id + "/"@ + tool_name
    &&& e.result_summary@ == result_summary_spec(server_id, tool_name, success)
    &&& e.final_answer@ == final_answer
    &&& e.detail_preview@ == truncate_spec(raw_output, MCP_PREVIEW_CHARS as nat)
    &&& e.raw_output@ == raw_output
    &&& e.result_chars == raw_output.len()
    &&& e.single_result_budget_chars == MCP_PREVIEW_CHARS
    &&& e.single_result_budget_hit == (raw_output.len() > MCP_PREVIEW_CHARS)
    &&& e.success == success
    &&& e.memory_write_summary is None
    &&& e.reasoning_summary@ == "Runtime 通过 Gateway MCP endpoint 执行工具，复用 allowlist 与审计。"@
    &&& e.cache_status@ == "bypass"@
    &&& e.cache_reason@ == CACHE_REASON@
}

fn mcp_execution(server_id: &str, tool_name: &str, raw_output: String, final_answer: String, success: bool) -> (e: ActionExecution)
    ensures
        mcp_execution_spec(e, server_id@, tool_name@, raw_output@, final_answer@, success),
{
    let result_chars = char_count(raw_output.as_str());
    let mut action = String::from_str("调用 MCP 工具：");
    push_str(&mut action, server_id);
    push_str(&mut action, "/");
    push_str(&mut action, tool_name);
    let mut summary = String::from_str("MCP 工具 ");
    push_str(&mut summary, "`");
    push_str(&mut summary, server_id);
    push_str(&mut summary, "/");
    push_str(&mut summary, tool_name);
    push_str(&mut summary, "`");
    push_str(&mut summary, if success { " 已返回结果。" } else { " 调用失败。" });
    assert(summary@ =~= result_summary_spec(server_id@, tool_name@, success));
    let detail_preview = truncate(raw_output.as_str(), MCP_PREVIEW_CHARS);
    ActionExecution {
        action_summary: action,
        result_summary: summary,
        final_answer,
        detail_preview,
        raw_output,
        result_chars,
        single_result_budget_chars: MCP_PREVIEW_CHARS,
        single_result_budget_hit: result_chars > MCP_PREVIEW_CHARS,
        success,
        memory_write_summary: None,
        reasoning_summary: String::from_str("Runtime 通过 Gateway MCP endpoint 执行工具，复用 allowlist 与审计。"),
        cache_status: String::from_str("bypass"),
        cache_reason: String::from_str(CACHE_REASON),
    }
}

/// The execution record of a call: the body on success, the error otherwise.
pub open spec fn mcp_outcome_spec(e: ActionExecution, server_id: Seq<char>, tool_name: Seq<char>, result: Result<Seq<char>, Seq<char>>) -> bool {
    match result {
        Ok(body) => mcp_execution_spec(e, server_id, tool_name, body, truncate_spec(body, MCP_PREVIEW_CHARS as nat), true),
        Err(error) => mcp_execution_spec(e, server_id, tool_name, error,
            "MCP 工具 "@ + tool_label(server_id, tool_name) + " 调用失败："@ + error, false),
    }
}

/// The view of a call's result.
pub open spec fn result_view(r: Result<String, String>) -> Result<Seq<char>, Seq<char>> {
    match r {
        Ok(b) => Ok(b@),
        Err(e) => Err(e@),
    }
}

/// The execution record of a call (see `mcp_outcome_spec`).
pub fn mcp_call_outcome(server_id: &str, tool_name: &str, result: Result<String, String>) -> (e: ActionExecution)
    ensures
        mcp_outcome_spec(e, server_id@, tool_name@, result_view(result)),
{
    match result {
        Ok(body) => {
            let preview = truncate(body.as_str(), MCP_PREVIEW_CHARS);
            mcp_execution(server_id, tool_name, body, preview, true)
        },
        Err(error) => {
            let mut answer = String::from_str("MCP 工具 ");
            push_str(&mut answer, "`");
            push_str(&mut answer, server_id);
            push_str(&mut answer, "/");
            push_str(&mut answer, tool_name);
            push_str(&mut answer, "`");
            push_str(&mut answer, " 调用失败：");
            push_str(&mut answer, error.as_str());
            assert(answer@ =~= "MCP 工具 "@ + tool_label(server_id@, tool_name@) + " 调用失败："@ + error@);
            mcp_execution(server_id, tool_name, error, answer, false)
        },
    }
}

/// Calls an MCP tool. Without a gateway configuration the call fails at
/// once; else `transport` posts the body with the configuration and gives
/// back curl's output, or the error of writing or running it, and the reply
/// is read as `curl_result_spec` says. The transport is called only when a
/// gateway is configured: nothing may be assumed of it otherwise.
pub fn execute_mcp_call<F: FnOnce(MCPBridgeConfig, String) -> Result<String, String>>(
    request: &RunRequest,
    server_id: &str,
    tool_name: &str,
    arguments_json: &str,
    transport: F,
) -> (e: ActionExecution)
    requires
        bridge_config_spec(request.context_hints@) is Some ==> forall|c: MCPBridgeConfig, p: String|
            call_requires(transport, (c, p)),
    ensures
        bridge_config_spec(request.context_hints@) is None ==> mcp_outcome_spec(e, server_id@, tool_name@,
            Err(NOT_CONFIGURED@)),
        bridge_config_spec(request.context_hints@) matches Some((url, token)) ==> exists|c: MCPBridgeConfig, p: String, out: Result<String, String>|
            #[trigger] call_ensures(transport, (c, p), out) && c.url@ == url && c.token@ == token
                && p@ == payload_spec(*request, server_id@, tool_name@, arguments_json@)
                && mcp_outcome_spec(e, server_id@, tool_name@, match out {
                    Ok(raw) => curl_result_spec(raw@),
                    Err(error) => Err(error@),
                }),
{
    let bridge = match mcp_bridge_config(request) {
        Ok(b) => b,
        Err(error) => { return mcp_call_outcome(server_id, tool_name, Err(error)); },
    };
    let payload = mcp_payload(request, server_id, tool_name, arguments_json);
    let ghost c = bridge;
    let ghost p = payload;
    let out = transport(bridge, payload);
    let result = match out {
        Ok(raw) => parse_curl_output(raw),
        Err(error) => Err(error),
    };
    let e = mcp_call_outcome(server_id, tool_name, result);
    assert(call_ensures(transport, (c, p), out));
    e
}

} // verus!
