use runtime_core::memory_layer::{
    digest_layer_phrase, digest_layer_summary, digest_route_summary, metadata_layer_summary,
    metadata_route_summary, reasoning_layer_summary,
};
use runtime_core::memory_recall::MemoryDigest;
use runtime_core::metadata::Metadata;

fn metadata_from(pairs: &[(&str, &str)]) -> Metadata {
    let mut m = Metadata::new();
    for (k, v) in pairs {
        m.set(k, v);
    }
    m
}

#[test]
fn digest_layer_helpers_keep_object_aware_labels() {
    let digest = MemoryDigest {
        summary: "digest".to_string(),
        has_system_views: true,
        has_current_objects: true,
        current_object_count: 2,
        memory_route: String::new(),
        selected_layers: Vec::new(),
        match_reason: String::new(),
        reuse_confidence: String::new(),
        skipped_layers: Vec::new(),
    };
    assert_eq!(digest_layer_phrase(&digest), "system views + current memory object，对象 2 条");
    assert_eq!(digest_layer_summary(&digest), "system views + current memory object（对象 2 条）");
    assert_eq!(digest_route_summary(&digest), "");
}

#[test]
fn metadata_route_summary_falls_back_to_selected_layers() {
    let metadata = metadata_from(&[("memory_selected_layers", "current memory object,history entries")]);
    assert_eq!(metadata_route_summary(&metadata), "current memory object + history entries");
}

#[test]
fn reasoning_layer_summary_extracts_recall_layer() {
    let layer = reasoning_layer_summary(
        "按查询词检索长期记忆，并返回前几条高相关结果；本次召回层为system views + current memory object，对象 2 条。",
    );
    assert_eq!(layer, "system views + current memory object，对象 2 条");
}

#[test]
fn metadata_route_summary_reads_route_fields() {
    let metadata = metadata_from(&[
        ("memory_route", "repair_route"),
        ("memory_selected_layers", "current memory object,history entries"),
        ("memory_skipped_layers", "system views"),
    ]);
    assert_eq!(
        metadata_route_summary(&metadata),
        "repair_route -> current memory object + history entries（跳过：system views）"
    );
}

#[test]
fn metadata_layer_summary_reads_count_and_flags() {
    let metadata = metadata_from(&[
        ("memory_has_current_objects", "true"),
        ("memory_current_object_count", "+3"),
    ]);
    assert_eq!(metadata_layer_summary(&metadata), "current memory object（对象 3 条）");
    let plain = metadata_from(&[("memory_current_object_count", "x")]);
    assert_eq!(metadata_layer_summary(&plain), "普通长期记忆");
    assert_eq!(reasoning_layer_summary("没有标记"), "");
}
