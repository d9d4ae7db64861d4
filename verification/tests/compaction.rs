use runtime_core::compaction::compact_session_turns;
use runtime_core::session::SessionTurn;

fn build_turn(index: usize) -> SessionTurn {
    SessionTurn {
        user_input: format!("第{}轮用户输入：{}", index + 1, "任务描述".repeat(10)),
        final_answer: format!("第{}轮智能体输出：{}", index + 1, "执行结果".repeat(10)),
        summary: String::new(),
        timestamp: "0".to_string(),
    }
}

#[test]
fn keeps_recent_turns_with_boundary_hint_when_over_budget() {
    let turns = (0..6).map(build_turn).collect::<Vec<_>>();
    let summary = compact_session_turns(&turns).summary;
    assert!(summary.contains("边界提示：已省略更早 2 轮"));
    assert!(summary.contains("第3轮"));
    assert!(summary.contains("第6轮"));
    assert!(!summary.contains("第1轮"));
}

#[test]
fn keeps_all_turns_without_boundary_hint_when_within_budget() {
    let turns = vec![build_turn(0), build_turn(1)];
    let summary = compact_session_turns(&turns).summary;
    assert!(summary.contains("第1轮"));
    assert!(summary.contains("第2轮"));
    assert!(!summary.contains("边界提示"));
}

#[test]
fn empty_history_compacts_to_empty_summary() {
    let summary = compact_session_turns(&[]).summary;
    assert_eq!(summary, "");
}

#[test]
fn single_turn_is_rendered_with_its_number() {
    let turn = SessionTurn {
        user_input: "  你好  ".to_string(),
        final_answer: "收到".to_string(),
        summary: String::new(),
        timestamp: "1".to_string(),
    };
    let summary = compact_session_turns(&[turn]).summary;
    assert_eq!(summary, "第1轮 用户：你好 | 智能体：收到");
}

#[test]
fn keeps_at_most_four_short_turns() {
    let turns = (0..6)
        .map(|i| SessionTurn {
            user_input: format!("q{i}"),
            final_answer: format!("a{i}"),
            summary: String::new(),
            timestamp: "0".to_string(),
        })
        .collect::<Vec<_>>();
    let summary = compact_session_turns(&turns).summary;
    assert_eq!(
        summary,
        "第3轮 用户：q2 | 智能体：a2 || 第4轮 用户：q3 | 智能体：a3 || 第5轮 用户：q4 | 智能体：a4 || 第6轮 用户：q5 | 智能体：a5 || 边界提示：已省略更早 2 轮（聚合预算 900 字符）。"
    );
}
