//! Compaction of the recent turns of a session into one bounded summary line.
use vstd::prelude::*;
use crate::session::SessionTurn;
use crate::text::{dec, join, push_str, summarize_text, summary_of, usize_text, char_count};

verus! {

/// The summary that compaction produces.
#[derive(Clone, Debug)]
pub struct CompactionResult {
    pub summary: String,
}

/// At most this many characters of compacted turns (separators included)
/// beyond the first turn kept.
pub const COMPACTION_AGGREGATE_CHAR_BUDGET: usize = 900;

/// At most this many turns are kept.
pub const COMPACTION_MAX_TURNS: usize = 4;

/// The compact line of the turn at `index` (counted from 0).
pub open spec fn compact_turn_spec(index: int, turn: SessionTurn) -> Seq<char> {
    "第"@ + dec((index + 1) as nat) + "轮 用户："@ + summary_of(turn.user_input@) + " | 智能体："@
        + summary_of(turn.final_answer@)
}

/// The cost of adding a line when `picked` lines are already kept.
pub open spec fn separator_cost_spec(picked: nat) -> nat {
    if picked == 0 {
        0
    } else {
        4
    }
}

/// How many of the turns before `n` are kept, walking from the newest, when
/// `picked` turns costing `chars` are kept already.
pub open spec fn kept_count(turns: Seq<SessionTurn>, n: nat, picked: nat, chars: nat) -> nat
    decreases n,
{
    if n == 0 || n > turns.len() || picked >= COMPACTION_MAX_TURNS {
        picked
    } else {
        let cost = compact_turn_spec(n - 1, turns[n - 1]).len() + separator_cost_spec(picked);
        if picked > 0 && chars + cost > COMPACTION_AGGREGATE_CHAR_BUDGET {
            picked
        } else {
            kept_count(turns, (n - 1) as nat, picked + 1, chars + cost)
        }
    }
}

/// The compact lines of the turns from `start` on, oldest first.
pub open spec fn compact_lines(turns: Seq<SessionTurn>, start: int) -> Seq<Seq<char>> {
    Seq::new((turns.len() - start) as nat, |k: int| compact_turn_spec(start + k, turns[start + k]))
}

/// The hint that marks how many earlier turns were left out.
pub open spec fn boundary_hint_spec(dropped: nat) -> Seq<char> {
    "边界提示：已省略更早 "@ + dec(dropped) + " 轮（聚合预算 900 字符）。"@
}

/// The compacted summary of a list of turns: the newest turns that fit the
/// budget, oldest first, joined by ` || `, with a boundary hint when turns were left out.
pub open spec fn compaction_spec(turns: Seq<SessionTurn>) -> Seq<char> {
    let kept = kept_count(turns, turns.len(), 0, 0);
    let start = turns.len() - kept;
    let body = join(compact_lines(turns, start), " || "@);
    if start > 0 {
        if body.len() == 0 {
            boundary_hint_spec(start as nat)
        } else {
            body + " || "@ + boundary_hint_spec(start as nat)
        }
    } else {
        body
    }
}

fn compact_turn(index: usize, turn: &SessionTurn) -> (line: String)
    requires
        index < usize::MAX,
    ensures
        line@ == compact_turn_spec(index as int, *turn),
{
    let mut line = String::new();
    push_str(&mut line, "第");
    let n = usize_text(index + 1);
    push_str(&mut line, n.as_str());
    push_str(&mut line, "轮 用户：");
    let u = summarize_text(turn.user_input.as_str());
    push_str(&mut line, u.as_str());
    push_str(&mut line, " | 智能体：");
    let a = summarize_text(turn.final_answer.as_str());
    push_str(&mut line, a.as_str());
    line
}

fn separator_cost(current_len: usize) -> (c: usize)
    ensures
        c == separator_cost_spec(current_len as nat),
{
    if current_len == 0 {
        0
    } else {
        4
    }
}

/// How many of the newest turns fit the budget.
fn select_turns_with_budget(turns: &[SessionTurn]) -> (kept: usize)
    ensures
        kept == kept_count(turns@, turns@.len(), 0, 0),
        kept <= turns@.len(),
{
    let mut picked: usize = 0;
    let mut chars: usize = 0;
    let mut n: usize = turns.len();
    while n > 0
        invariant
            n <= turns@.len(),
            picked + n <= turns@.len(),
            picked <= COMPACTION_MAX_TURNS,
            picked > 0 ==> chars <= usize::MAX / 2,
            picked == 0 ==> chars == 0,
            kept_count(turns@, turns@.len(), 0, 0) == kept_count(turns@, n as nat, picked as nat, chars as nat),
        ensures
            kept_count(turns@, turns@.len(), 0, 0) == picked,
            picked <= turns@.len(),
        decreases n,
    {
        if picked >= COMPACTION_MAX_TURNS {
            break;
        }
        let candidate = compact_turn(n - 1, &turns[n - 1]);
        let len = char_count(candidate.as_str());
        let sep = separator_cost(picked);
        if picked > 0 {
            if len > COMPACTION_AGGREGATE_CHAR_BUDGET || chars + len + sep > COMPACTION_AGGREGATE_CHAR_BUDGET {
                assert(kept_count(turns@, n as nat, picked as nat, chars as nat) == picked);
                break;
            }
            chars = chars + len + sep;
        } else {
            if len > usize::MAX / 2 {
                proof {
                    assert(kept_count(turns@, (n - 1) as nat, 1, len as nat) >= 1) by {
                        lemma_kept_at_least(turns@, (n - 1) as nat, 1, len as nat);
                    }
                }
                return kept_with_large_first(turns, n, len);
            }
            chars = len;
        }
        picked = picked + 1;
        n = n - 1;
    }
    picked
}

proof fn lemma_kept_at_least(turns: Seq<SessionTurn>, n: nat, picked: nat, chars: nat)
    ensures
        kept_count(turns, n, picked, chars) >= picked,
    decreases n,
{
    if !(n == 0 || n > turns.len() || picked >= COMPACTION_MAX_TURNS) {
        let cost = compact_turn_spec(n - 1, turns[n - 1]).len() + separator_cost_spec(picked);
        if !(picked > 0 && chars + cost > COMPACTION_AGGREGATE_CHAR_BUDGET) {
            lemma_kept_at_least(turns, (n - 1) as nat, picked + 1, chars + cost);
        }
    }
}

proof fn lemma_kept_stops_when_over(turns: Seq<SessionTurn>, n: nat, chars: nat)
    requires
        chars > COMPACTION_AGGREGATE_CHAR_BUDGET,
    ensures
        kept_count(turns, n, 1, chars) == 1,
{
}

/// When the newest turn alone exceeds half the address space, nothing else fits after it.
fn kept_with_large_first(turns: &[SessionTurn], n: usize, len: usize) -> (kept: usize)
    requires
        0 < n <= turns@.len(),
        len > usize::MAX / 2,
    ensures
        kept == kept_count(turns@, (n - 1) as nat, 1, len as nat),
{
    proof {
        lemma_kept_stops_when_over(turns@, (n - 1) as nat, len as nat);
    }
    1
}

fn append_boundary_hint(summary: String, dropped: usize) -> (out: String)
    ensures
        out@ == if summary@.len() == 0 {
            boundary_hint_spec(dropped as nat)
        } else {
            summary@ + " || "@ + boundary_hint_spec(dropped as nat)
        },
{
    let mut hint = String::new();
    push_str(&mut hint, "边界提示：已省略更早 ");
    let d = usize_text(dropped);
    push_str(&mut hint, d.as_str());
    push_str(&mut hint, " 轮（聚合预算 900 字符）。");
    if summary.as_str().is_empty() {
        hint
    } else {
        let mut out = summary;
        push_str(&mut out, " || ");
        push_str(&mut out, hint.as_str());
        out
    }
}

/// Compacts the recent turns of a session into one summary line.
pub fn compact_session_turns(turns: &[SessionTurn]) -> (r: CompactionResult)
    ensures
        r.summary@ == compaction_spec(turns@),
{
    let kept = select_turns_with_budget(turns);
    let start = turns.len() - kept;
    let ghost lines = compact_lines(turns@, start as int);
    let mut summary = String::new();
    let mut i: usize = start;
    while i < turns.len()
        invariant
            start <= i <= turns@.len(),
            lines == compact_lines(turns@, start as int),
            summary@ == join(lines.take(i - start), " || "@),
        decreases turns.len() - i,
    {
        proof {
            assert(lines.take(i - start + 1).drop_last() =~= lines.take(i - start));
            assert(lines.take(i - start + 1).last() == compact_turn_spec(i as int, turns@[i as int]));
        }
        if i > start {
            push_str(&mut summary, " || ");
        }
        let line = compact_turn(i, &turns[i]);
        push_str(&mut summary, line.as_str());
        i = i + 1;
        proof {
            if i == start + 1 {
                assert(lines.take(1) =~= seq![lines[0]]);
            }
        }
    }
    assert(lines.take(turns@.len() - start) =~= lines);
    if start > 0 {
        summary = append_boundary_hint(summary, start);
    }
    CompactionResult { summary }
}


proof fn lemma_kept_count_bounds(turns: Seq<SessionTurn>, n: nat, picked: nat, chars: nat)
    requires
        n <= turns.len(),
        picked <= COMPACTION_MAX_TURNS,
    ensures
        picked <= kept_count(turns, n, picked, chars),
        kept_count(turns, n, picked, chars) <= COMPACTION_MAX_TURNS,
        kept_count(turns, n, picked, chars) <= picked + n,
        picked == 0 && n > 0 ==> kept_count(turns, n, picked, chars) >= 1,
    decreases n,
{
    if n == 0 || picked >= COMPACTION_MAX_TURNS {
    } else {
        let cost = compact_turn_spec(n - 1, turns[n - 1]).len() + separator_cost_spec(picked);
        if picked > 0 && chars + cost > COMPACTION_AGGREGATE_CHAR_BUDGET {
        } else {
            lemma_kept_count_bounds(turns, (n - 1) as nat, picked + 1, chars + cost);
        }
    }
}

/// Compaction keeps the newest turns only: at most `COMPACTION_MAX_TURNS`,
/// never more than there are, and always the newest one when there is any.
pub proof fn compaction_keeps_recent_turns_law(turns: Seq<SessionTurn>)
    ensures
        kept_count(turns, turns.len(), 0, 0) <= COMPACTION_MAX_TURNS,
        kept_count(turns, turns.len(), 0, 0) <= turns.len(),
        turns.len() > 0 ==> kept_count(turns, turns.len(), 0, 0) >= 1,
{
    lemma_kept_count_bounds(turns, turns.len(), 0, 0);
}

} // verus!
