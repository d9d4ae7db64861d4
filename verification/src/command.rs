//! Running a shell command in the workspace: which commands are refused,
//! how long a command may run, and the execution record built from what the
//! command printed. The host starts the process and hands its status and
//! output here.
use vstd::prelude::*;
use crate::contracts::RunRequest;
use crate::execution::{ActionExecution, plain_execution};
use crate::text::{blank, contains, dec, has_sub, is_blank, lowercase_of, push_str, replace, replace_all, summarize_text, summary_of, to_lower, char_count, usize_text};

verus! {

/// Why command results never come from the answer cache.
pub const CACHE_REASON: &'static str = "命令执行结果依赖实时环境，不使用回答缓存。";

/// How many characters of output one command result may hold before the
/// full text is kept aside.
pub const COMMAND_SINGLE_RESULT_BUDGET_CHARS: usize = 30000;

/// The time a command may run when none is asked for, in seconds.
pub const DEFAULT_TIMEOUT_SECS: u64 = 30;

/// The longest time a command may be given, in seconds.
pub const MAX_TIMEOUT_SECS: u64 = 300;

/// Why a dangerous command is refused.
pub const DANGEROUS_REASON: &'static str = "命令匹配危险模式，已拒绝执行。";

/// What the host reports when the thread running the command went away.
pub const THREAD_LOST_ERROR: &'static str = "命令执行线程意外退出。";

/// The number of dangerous patterns.
pub const DANGEROUS_PATTERN_COUNT: usize = 24;

/// The patterns that mark a command as dangerous.
pub open spec fn dangerous_patterns() -> Seq<Seq<char>> {
    seq![
        "rm -rf /"@, "rm -rf --no-preserve-root"@, "del /f /s C:\\"@, "rd /s /q C:\\"@, "format "@, "mkfs."@,
        "dd if="@, "> /dev/sda"@, "shutdown"@, "reboot"@, ":(){ :|:& };:"@, "chmod 777 /"@, "chmod -R 777 /"@,
        "chown -R "@, "wget "@, "curl "@, "nc "@, "ncat "@, "netcat "@, "eval "@, "exec "@, "Invoke-Expression"@,
        "iex "@, "Start-Process"@,
    ]
}

/// The dangerous pattern numbered `i`.
pub fn dangerous_pattern(i: usize) -> (p: &'static str)
    requires
        i < DANGEROUS_PATTERN_COUNT,
    ensures
        p@ == dangerous_patterns()[i as int],
{
    match i {
        0 => "rm -rf /",
        1 => "rm -rf --no-preserve-root",
        2 => "del /f /s C:\\",
        3 => "rd /s /q C:\\",
        4 => "format ",
        5 => "mkfs.",
        6 => "dd if=",
        7 => "> /dev/sda",
        8 => "shutdown",
        9 => "reboot",
        10 => ":(){ :|:& };:",
        11 => "chmod 777 /",
        12 => "chmod -R 777 /",
        13 => "chown -R ",
        14 => "wget ",
        15 => "curl ",
        16 => "nc ",
        17 => "ncat ",
        18 => "netcat ",
        19 => "eval ",
        20 => "exec ",
        21 => "Invoke-Expression",
        22 => "iex ",
        _ => "Start-Process",
    }
}

/// The command, lower-cased, holds a dangerous pattern, lower-cased.
pub open spec fn is_dangerous(command: Seq<char>) -> bool {
    exists|i: int|
        0 <= i < dangerous_patterns().len() && #[trigger] has_sub(
            lowercase_of(command),
            lowercase_of(dangerous_patterns()[i]),
        )
}

/// Why the command is refused, if it is dangerous.
pub fn check_dangerous_command(command: &str) -> (r: Option<&'static str>)
    ensures
        r is Some <==> is_dangerous(command@),
        r matches Some(reason) ==> reason@ == DANGEROUS_REASON@,
{
    let lower = to_lower(command);
    let mut i: usize = 0;
    while i < DANGEROUS_PATTERN_COUNT
        invariant
            i <= DANGEROUS_PATTERN_COUNT,
            lower@ == lowercase_of(command@),
            dangerous_patterns().len() == DANGEROUS_PATTERN_COUNT,
            forall|j: int|
                0 <= j < i ==> !#[trigger] has_sub(lowercase_of(command@), lowercase_of(dangerous_patterns()[j])),
        decreases DANGEROUS_PATTERN_COUNT - i,
    {
        let pattern = to_lower(dangerous_pattern(i));
        if contains(lower.as_str(), pattern.as_str()) {
            return Some(DANGEROUS_REASON);
        }
        i = i + 1;
    }
    None
}

/// The time a command may run: the one asked for, at most the maximum, or the default.
pub open spec fn timeout_spec(timeout_secs: Option<u32>) -> u64 {
    match timeout_secs {
        Some(t) => if (t as u64) < MAX_TIMEOUT_SECS { t as u64 } else { MAX_TIMEOUT_SECS },
        None => DEFAULT_TIMEOUT_SECS,
    }
}

/// The time a command may run, in seconds.
pub fn command_timeout_secs(timeout_secs: Option<u32>) -> (r: u64)
    ensures
        r == timeout_spec(timeout_secs),
{
    match timeout_secs {
        Some(t) => {
            let t64 = t as u64;
            if t64 < MAX_TIMEOUT_SECS {
                t64
            } else {
                MAX_TIMEOUT_SECS
            }
        },
        None => DEFAULT_TIMEOUT_SECS,
    }
}

/// The error the host reports when the command ran past its time.
pub fn timeout_error(secs: u64) -> (r: String)
    ensures
        r@ == "命令执行超时（"@ + dec(secs as nat) + " 秒），已终止。"@,
{
    let mut out = String::from_str("命令执行超时（");
    let n = crate::text::u64_text(secs);
    push_str(&mut out, n.as_str());
    push_str(&mut out, " 秒），已终止。");
    out
}

/// A text in single quotes for PowerShell, with each quote doubled.
pub fn ps_single_quote(value: &str) -> (r: String)
    ensures
        r@ == "'"@ + replace_all(value@, "'"@, "''"@) + "'"@,
{
    proof {
        reveal_strlit("'");
    }
    let mut out = String::from_str("'");
    let inner = replace(value, "'", "''");
    push_str(&mut out, inner.as_str());
    push_str(&mut out, "'");
    out
}

/// The PowerShell script that runs a command in the workspace with UTF-8 output.
pub fn powershell_script(root_path: &str, command: &str) -> (r: String)
    ensures
        r@ == "[Console]::OutputEncoding = [System.Text.Encoding]::UTF8; $OutputEncoding = [System.Text.Encoding]::UTF8; chcp 65001 > $null; Set-Location -LiteralPath "@
            + "'"@ + replace_all(root_path@, "'"@, "''"@) + "'"@ + "; "@ + command@,
{
    let mut out = String::from_str(
        "[Console]::OutputEncoding = [System.Text.Encoding]::UTF8; $OutputEncoding = [System.Text.Encoding]::UTF8; chcp 65001 > $null; Set-Location -LiteralPath ",
    );
    let quoted = ps_single_quote(root_path);
    push_str(&mut out, quoted.as_str());
    push_str(&mut out, "; ");
    push_str(&mut out, command);
    out
}

/// "尝试执行命令：" followed by the command.
pub open spec fn attempt_summary(command: Seq<char>) -> Seq<char> {
    "尝试执行命令："@ + command
}

/// The execution of a command that was refused as dangerous.
pub fn rejected_command(command: &str, reason: &str) -> (e: ActionExecution)
    ensures
        plain_execution(e, attempt_summary(command@), "命令被拒绝："@ + reason@, "命令执行被安全策略拒绝："@ + reason@,
            false, None, "检测到潜在危险命令，已阻断执行。"@, "bypass"@, CACHE_REASON@),
{
    let mut action = String::from_str("尝试执行命令：");
    push_str(&mut action, command);
    let mut summary = String::from_str("命令被拒绝：");
    push_str(&mut summary, reason);
    let mut answer = String::from_str("命令执行被安全策略拒绝：");
    push_str(&mut answer, reason);
    ActionExecution::bypass_fail(action, summary, answer, String::from_str("检测到潜在危险命令，已阻断执行。"), CACHE_REASON)
}

/// The execution of a command whose process could not be started or run.
pub fn command_failure(command: &str, error: &str) -> (e: ActionExecution)
    ensures
        plain_execution(e, attempt_summary(command@), "命令执行失败："@ + error@, "命令执行失败："@ + error@, false,
            None, "命令进程启动或运行失败，按错误收口。"@, "bypass"@, CACHE_REASON@),
{
    let mut action = String::from_str("尝试执行命令：");
    push_str(&mut action, command);
    let mut summary = String::from_str("命令执行失败：");
    push_str(&mut summary, error);
    let answer = summary.clone();
    ActionExecution::bypass_fail(action, summary, answer, String::from_str("命令进程启动或运行失败，按错误收口。"), CACHE_REASON)
}

/// What a failed command printed: the non-blank stream, or both, labelled.
pub open spec fn merged_output(stdout: Seq<char>, stderr: Seq<char>) -> Seq<char> {
    if is_blank(stdout) {
        stderr
    } else if is_blank(stderr) {
        stdout
    } else {
        "[stdout]\n"@ + stdout + "\n\n[stderr]\n"@ + stderr
    }
}

/// What a failed command printed (see `merged_output`).
pub fn merge_error_output(stdout: &str, stderr: &str) -> (r: String)
    ensures
        r@ == merged_output(stdout@, stderr@),
{
    if blank(stdout) {
        return String::from_str(stderr);
    }
    if blank(stderr) {
        return String::from_str(stdout);
    }
    let mut out = String::from_str("[stdout]\n");
    push_str(&mut out, stdout);
    push_str(&mut out, "\n\n[stderr]\n");
    push_str(&mut out, stderr);
    out
}

/// The size of a command's output against the single result budget.
#[derive(Clone, Debug)]
pub struct CommandBudget {
    pub result_chars: usize,
    pub budget_chars: usize,
    pub hit: bool,
}

/// The budget figures of an output.
pub fn command_budget(raw_output: &str) -> (b: CommandBudget)
    ensures
        b.result_chars == raw_output@.len(),
        b.budget_chars == COMMAND_SINGLE_RESULT_BUDGET_CHARS,
        b.hit == (raw_output@.len() > COMMAND_SINGLE_RESULT_BUDGET_CHARS),
{
    let result_chars = char_count(raw_output);
    CommandBudget {
        result_chars,
        budget_chars: COMMAND_SINGLE_RESULT_BUDGET_CHARS,
        hit: result_chars > COMMAND_SINGLE_RESULT_BUDGET_CHARS,
    }
}

/// The preview of an output: unchanged within the budget, else prefixed
/// with a note of the size and the budget.
pub open spec fn budget_preview_spec(detail_preview: Seq<char>, b: CommandBudget) -> Seq<char> {
    if !b.hit {
        detail_preview
    } else {
        "输出较长（"@ + dec(b.result_chars as nat) + " 字符，超出单结果预算 "@ + dec(b.budget_chars as nat)
            + "），完整原文已外置。摘要："@ + if detail_preview.len() == 0 {
            "无可显示内容。"@
        } else {
            detail_preview
        }
    }
}

/// The preview of an output (see `budget_preview_spec`).
pub fn budget_preview(detail_preview: String, budget: &CommandBudget) -> (r: String)
    ensures
        r@ == budget_preview_spec(detail_preview@, *budget),
{
    if !budget.hit {
        return detail_preview;
    }
    let mut out = String::from_str("输出较长（");
    let a = usize_text(budget.result_chars);
    push_str(&mut out, a.as_str());
    push_str(&mut out, " 字符，超出单结果预算 ");
    let b = usize_text(budget.budget_chars);
    push_str(&mut out, b.as_str());
    push_str(&mut out, "），完整原文已外置。摘要：");
    if detail_preview.as_str().is_empty() {
        push_str(&mut out, "无可显示内容。");
    } else {
        push_str(&mut out, detail_preview.as_str());
    }
    out
}

/// What a finished command printed: whether it exited successfully, and its
/// standard output and standard error as text.
#[derive(Clone, Debug)]
pub struct CommandOutput {
    pub success: bool,
    pub stdout: String,
    pub stderr: String,
}

/// The raw output kept for a command: its standard output on success, else
/// what it printed on both streams.
pub open spec fn raw_output_spec(o: CommandOutput) -> Seq<char> {
    if o.success {
        o.stdout@
    } else {
        merged_output(o.stdout@, o.stderr@)
    }
}

/// The summary of a command's result.
pub open spec fn output_summary_spec(o: CommandOutput) -> Seq<char> {
    let preview = summary_of(raw_output_spec(o));
    if preview.len() == 0 {
        if o.success {
            "命令执行成功，未返回可见输出。"@
        } else {
            "命令执行失败，未返回可见错误输出。"@
        }
    } else {
        preview
    }
}

/// The answer shown for a command's result.
pub open spec fn output_answer_spec(root_path: Seq<char>, command: Seq<char>, o: CommandOutput) -> Seq<char> {
    if o.success {
        "命令已执行完成。\n工作区："@ + root_path + "\n命令："@ + command + "\n输出摘要："@ + output_summary_spec(o)
    } else {
        "命令执行失败。\n工作区："@ + root_path + "\n命令："@ + command + "\n错误摘要："@ + output_summary_spec(o)
    }
}

/// The execution record of a command that ran to its end.
pub open spec fn command_execution_spec(e: ActionExecution, request: RunRequest, command: Seq<char>, o: CommandOutput) -> bool {
    let raw = raw_output_spec(o);
    let budget = CommandBudget {
        result_chars: raw.len() as usize,
        budget_chars: COMMAND_SINGLE_RESULT_BUDGET_CHARS,
        hit: raw.len() > COMMAND_SINGLE_RESULT_BUDGET_CHARS,
    };
    &&& e.action_summary@ == "在工作区 `"@ + request.workspace_ref.name@ + "` 中执行命令："@ + command
    &&& e.result_summary@ == output_summary_spec(o)
    &&& e.final_answer@ == output_answer_spec(request.workspace_ref.root_path@, command, o)
    &&& e.detail_preview@ == budget_preview_spec(summary_of(raw), budget)
    &&& e.raw_output@ == raw
    &&& e.result_chars == raw.len()
    &&& e.single_result_budget_chars == COMMAND_SINGLE_RESULT_BUDGET_CHARS
    &&& e.single_result_budget_hit == (raw.len() > COMMAND_SINGLE_RESULT_BUDGET_CHARS)
    &&& e.success == o.success
    &&& e.memory_write_summary is None
    &&& e.reasoning_summary@ == "执行用户命令，含超时控制与危险命令阻断。"@
    &&& e.cache_status@ == "bypass"@
    &&& e.cache_reason@ == CACHE_REASON@
}

/// The execution record of a command that ran to its end.
pub fn command_execution(request: &RunRequest, command: &str, output: CommandOutput) -> (e: ActionExecution)
    ensures
        command_execution_spec(e, *request, command@, output),
{
    let raw = if output.success {
        output.stdout.clone()
    } else {
        merge_error_output(output.stdout.as_str(), output.stderr.as_str())
    };
    let detail_preview = summarize_text(raw.as_str());
    let summary = if detail_preview.as_str().is_empty() {
        if output.success {
            String::from_str("命令执行成功，未返回可见输出。")
        } else {
            String::from_str("命令执行失败，未返回可见错误输出。")
        }
    } else {
        detail_preview.clone()
    };
    let mut answer = if output.success {
        String::from_str("命令已执行完成。\n工作区：")
    } else {
        String::from_str("命令执行失败。\n工作区：")
    };
    push_str(&mut answer, request.workspace_ref.root_path.as_str());
    push_str(&mut answer, "\n命令：");
    push_str(&mut answer, command);
    push_str(&mut answer, if output.success { "\n输出摘要：" } else { "\n错误摘要：" });
    push_str(&mut answer, summary.as_str());
    let mut action = String::from_str("在工作区 `");
    push_str(&mut action, request.workspace_ref.name.as_str());
    push_str(&mut action, "` 中执行命令：");
    push_str(&mut action, command);
    let mut execution = ActionExecution::bypass(
        action,
        summary,
        answer,
        output.success,
        None,
        String::from_str("执行用户命令，含超时控制与危险命令阻断。"),
        CACHE_REASON,
    );
    let budget = command_budget(raw.as_str());
    execution.detail_preview = budget_preview(detail_preview, &budget);
    execution.raw_output = raw;
    execution.result_chars = budget.result_chars;
    execution.single_result_budget_chars = budget.budget_chars;
    execution.single_result_budget_hit = budget.hit;
    execution
}

/// What the host does before running a command: refuse it, or run it with
/// the time it may take.
pub fn command_precheck(command: &str, timeout_secs: Option<u32>) -> (r: Result<u64, ActionExecution>)
    ensures
        match r {
            Ok(t) => !is_dangerous(command@) && t == timeout_spec(timeout_secs),
            Err(e) => is_dangerous(command@) && plain_execution(e, attempt_summary(command@),
                "命令被拒绝："@ + DANGEROUS_REASON@, "命令执行被安全策略拒绝："@ + DANGEROUS_REASON@, false, None,
                "检测到潜在危险命令，已阻断执行。"@, "bypass"@, CACHE_REASON@),
        },
{
    match check_dangerous_command(command) {
        Some(reason) => Err(rejected_command(command, reason)),
        None => Ok(command_timeout_secs(timeout_secs)),
    }
}

/// The execution record of a command after the host ran it: the process
/// error, or what the command printed.
pub fn command_outcome(request: &RunRequest, command: &str, outcome: Result<CommandOutput, String>) -> (e: ActionExecution)
    ensures
        match outcome {
            Ok(o) => command_execution_spec(e, *request, command@, o),
            Err(error) => plain_execution(e, attempt_summary(command@), "命令执行失败："@ + error@,
                "命令执行失败："@ + error@, false, None, "命令进程启动或运行失败，按错误收口。"@, "bypass"@,
                CACHE_REASON@),
        },
{
    match outcome {
        Ok(o) => command_execution(request, command, o),
        Err(error) => command_failure(command, error.as_str()),
    }
}

} // verus!
