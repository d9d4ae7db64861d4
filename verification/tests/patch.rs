use runtime_core::patch::{
    apply_hunks, build_change, ensure_unique_targets, fail_patch, header_path, normalize_diff_path, ok_patch,
    parse_unified_diff, patch_failure, patch_kind, rollback_ops, with_rollback, write_ops, FsOp, PatchKind,
};

fn diff(path: &str, old: &str, new: &str) -> String {
    format!("--- a/{path}\n+++ b/{path}\n@@ -1,3 +1,3 @@\n hello\n-{old}\n+{new}\n end")
}

fn change_for(d: &str, original: &str) -> runtime_core::patch::PatchChange {
    let patches = parse_unified_diff(d).unwrap();
    let p = &patches[0];
    let kind = patch_kind(p).unwrap();
    build_change(kind, p.old_path.clone(), p.new_path.clone(), original.to_string(), &p.hunks, false, false).unwrap()
}

#[test]
fn parses_single_file_diff() {
    let patches = parse_unified_diff(&diff("sample.txt", "old", "new")).unwrap();
    assert_eq!(patches.len(), 1);
    assert_eq!(patches[0].old_path.as_deref(), Some("sample.txt"));
    assert_eq!(patches[0].new_path.as_deref(), Some("sample.txt"));
    assert_eq!(patches[0].hunks.len(), 1);
    assert_eq!(patches[0].hunks[0].old_lines, vec!["hello", "old", "end"]);
    assert_eq!(patches[0].hunks[0].new_lines, vec!["hello", "new", "end"]);
}

#[test]
fn applies_hunk_in_place() {
    let c = change_for(&diff("sample.txt", "old", "new"), "hello\nold\nend");
    assert_eq!(c.kind, PatchKind::Modify);
    assert_eq!(c.updated, "hello\nnew\nend");
    assert_eq!(c.before_chars, 13);
}

#[test]
fn context_mismatch_is_a_conflict() {
    let patches = parse_unified_diff(&diff("sample.txt", "old", "new")).unwrap();
    let p = &patches[0];
    let err = build_change(PatchKind::Modify, p.old_path.clone(), p.new_path.clone(), "hello\nother\nend".to_string(), &p.hunks, false, false)
        .unwrap_err();
    assert_eq!(err.stage, "conflict");
    assert!(fail_patch(&err).final_answer.contains("上下文"));
}

#[test]
fn create_delete_and_rename() {
    let created = change_for("--- /dev/null\n+++ b/created.txt\n@@ -0,0 +1 @@\n+created", "");
    assert_eq!(created.kind, PatchKind::Create);
    assert_eq!(created.updated, "created\n");
    let deleted = change_for("--- a/sample.txt\n+++ /dev/null\n@@ -1,3 +0,0 @@\n-hello\n-old\n-end", "hello\nold\nend");
    assert_eq!(deleted.kind, PatchKind::Delete);
    assert_eq!(deleted.updated, "");
    let renames = parse_unified_diff("diff --git a/sample.txt b/renamed.txt\nrename from sample.txt\nrename to renamed.txt").unwrap();
    assert_eq!(renames.len(), 1);
    assert_eq!(renames[0].old_path.as_deref(), Some("sample.txt"));
    assert_eq!(renames[0].new_path.as_deref(), Some("renamed.txt"));
    assert!(renames[0].hunks.is_empty());
    assert_eq!(patch_kind(&renames[0]).unwrap(), PatchKind::Rename);
}

#[test]
fn parse_errors() {
    assert_eq!(parse_unified_diff("nothing here").unwrap_err(), "diff 缺少文件块。");
    assert_eq!(parse_unified_diff("--- a/x\nno plus").unwrap_err(), "diff 文件块缺少 +++ 文件路径。");
    assert_eq!(parse_unified_diff("--- a/x\n+++ b/x\n no hunk").unwrap_err(), "diff 缺少 hunk。");
    assert_eq!(parse_unified_diff("rename from \nrename to b").unwrap_err(), "rename patch 缺少路径。");
    assert_eq!(header_path("--- a/x.txt\t2024-01-01", "--- "), Some("a/x.txt".to_string()));
    assert_eq!(normalize_diff_path("/dev/null"), None);
    assert_eq!(normalize_diff_path("a/src/x"), Some("src/x".to_string()));
}

#[test]
fn multi_file_diff_parses_both() {
    let d = format!(
        "{}\n{}",
        diff("sample.txt", "old", "new"),
        "--- a/second.txt\n+++ b/second.txt\n@@ -1,3 +1,3 @@\n alpha\n-old\n+new\n omega"
    );
    let patches = parse_unified_diff(&d).unwrap();
    assert_eq!(patches.len(), 2);
    assert_eq!(patches[1].new_path.as_deref(), Some("second.txt"));
}

#[test]
fn duplicate_targets_are_refused() {
    let a = change_for(&diff("sample.txt", "old", "new"), "hello\nold\nend");
    let b = change_for(&diff("sample.txt", "old", "new"), "hello\nold\nend");
    let err = ensure_unique_targets(&[a, b]).unwrap_err();
    assert_eq!(err.reason, "同一 patch 重复触达文件。");
    assert_eq!(err.path.as_deref(), Some("sample.txt"));
    let single = change_for(&diff("sample.txt", "old", "new"), "hello\nold\nend");
    assert!(ensure_unique_targets(&[single]).is_ok());
}

#[test]
fn report_and_failure_outputs() {
    let c = change_for(&diff("sample.txt", "old", "new"), "hello\nold\nend");
    let e = ok_patch(false, &[c]);
    assert!(e.success);
    assert_eq!(e.action_summary, "应用 patch：1 个文件");
    assert_eq!(e.result_summary, "patch apply 成功，影响 1 个文件。");
    assert_eq!(e.final_answer, "patch apply 完成：\n- modify: sample.txt (13 -> 13 chars)");
    let v: serde_json::Value = serde_json::from_str(&e.raw_output).unwrap();
    assert_eq!(v["changes"][0]["kind"], "modify");
    assert_eq!(v["dry_run"], false);
    let pretty_expected = serde_json::to_string_pretty(&v).unwrap();
    assert_eq!(e.raw_output, pretty_expected);
    let f = with_rollback(patch_failure("write", Some("x.txt"), "denied"), true);
    let fe = fail_patch(&f);
    assert!(!fe.success);
    assert_eq!(fe.final_answer, "patch 应用失败：denied（文件：x.txt）");
    assert!(fe.raw_output.contains("\"rollback_attempted\": true"));
    let fv: serde_json::Value = serde_json::from_str(&fe.raw_output).unwrap();
    assert_eq!(serde_json::to_string_pretty(&fv).unwrap(), fe.raw_output);
}

#[test]
fn write_and_rollback_operations() {
    let c = change_for(&diff("sample.txt", "old", "new"), "hello\nold\nend");
    let ops = write_ops(&c);
    assert!(matches!(&ops[1], FsOp::Write(p, t) if p == "sample.txt" && t == "hello\nnew\nend"));
    let undo = rollback_ops(&c);
    assert!(matches!(&undo[1], FsOp::Write(p, t) if p == "sample.txt" && t == "hello\nold\nend"));
}

#[test]
fn hunks_apply_in_order() {
    let patches = parse_unified_diff("--- a/f\n+++ b/f\n@@ -1 +1 @@\n-a\n+A\n@@ -3 +3 @@\n-c\n+C").unwrap();
    assert_eq!(apply_hunks("a\nb\nc", &patches[0].hunks), Some("A\nb\nC".to_string()));
    assert_eq!(apply_hunks("x\ny", &patches[0].hunks), None);
}
