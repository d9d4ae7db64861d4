use runtime_core::capabilities::ToolDefinition;
use runtime_core::context_builder::{
    build_dynamic_block, fill_identity_fields, format_knowledge_pack_digest, format_memory_digest, injection_summary,
    mode_prompt_text, reasoning_summary, repo_doc_summary, selected_artifact_hint, selected_knowledge_selection,
    selected_memory_selection, selected_session_summary, selected_tool_preview, status_digest_entry,
    DynamicPromptBlock, KnowledgePack, KnowledgePromptSelection, MemoryPromptSelection, ObservationInjection, PackHit,
    PromptParts,
};
use runtime_core::context_policy::ContextAssemblyPolicy;
use runtime_core::contracts::{ModelRef, ProviderRef, RunRequest, WorkspaceDocSummary, WorkspaceRef};
use runtime_core::memory_recall::MemoryDigest;
use runtime_core::metadata::Metadata;
use runtime_core::session::{SessionMemory, ShortTermMemory};

fn policy(
    profile: &str,
    prompt_profile: &str,
    flags: (bool, bool, bool, bool, bool),
    max_skill_level: &str,
    phase_label: &str,
    prefer_artifact_context: bool,
) -> ContextAssemblyPolicy {
    ContextAssemblyPolicy {
        profile: profile.to_string(),
        prompt_profile: prompt_profile.to_string(),
        include_session: flags.0,
        include_memory: flags.1,
        include_knowledge: flags.2,
        include_tool_preview: flags.3,
        skill_injection_enabled: flags.4,
        max_skill_level: max_skill_level.to_string(),
        phase_label: phase_label.to_string(),
        selection_reason: "test".to_string(),
        prefer_artifact_context,
    }
}

fn request_with_input(user_input: &str) -> RunRequest {
    let mut context_hints = Metadata::new();
    context_hints.insert("skill_ids".to_string(), "skill.alpha,skill.beta".to_string());
    context_hints.insert("evidence_refs".to_string(), "verify:sample".to_string());
    RunRequest {
        request_id: "request-1".to_string(),
        run_id: "run-1".to_string(),
        session_id: "session-1".to_string(),
        trace_id: "trace-1".to_string(),
        user_input: user_input.to_string(),
        mode: "standard".to_string(),
        model_ref: ModelRef { provider_id: "provider".to_string(), model_id: "model".to_string(), display_name: "Model".to_string() },
        provider_ref: ProviderRef {
            provider_id: String::new(),
            display_name: String::new(),
            base_url: String::new(),
            chat_completions_path: String::new(),
            models_path: String::new(),
            api_key: String::new(),
        },
        workspace_ref: WorkspaceRef {
            workspace_id: "workspace-1".to_string(),
            name: "Workspace".to_string(),
            root_path: "/repo".to_string(),
            is_active: true,
        },
        context_hints,
        resume_from_checkpoint_id: String::new(),
        resume_strategy: String::new(),
        confirmation_decision: None,
    }
}

fn sample_request() -> RunRequest {
    request_with_input("test")
}

fn sample_tool() -> ToolDefinition {
    ToolDefinition {
        tool_name: "workspace_read".to_string(),
        display_name: "读取文件".to_string(),
        category: "workspace_read".to_string(),
        risk_level: "low".to_string(),
        input_schema: "path".to_string(),
        output_kind: "text".to_string(),
        requires_confirmation: false,
    }
}

fn sample_pack() -> KnowledgePack {
    KnowledgePack {
        question_type: "concept".to_string(),
        match_reason: "关键词命中".to_string(),
        top_hits: vec![PackHit {
            path: "docs/agent.md".to_string(),
            snippet: "agent 需要 memory".to_string(),
            use_for: "定义".to_string(),
        }],
        supporting_hits: vec![],
        answer_hints: vec![],
        citations: vec!["docs/agent.md".to_string()],
    }
}

#[test]
fn fills_skill_injection_fields_from_policy_and_hints() {
    let request = sample_request();
    let policy = policy("act_profile", "agent_resolve", (true, true, true, false, true), "level1:index-summary", "execute", false);
    let mut block = DynamicPromptBlock::default();
    fill_identity_fields(&mut block, &request, &policy);
    assert!(block.skill_injection_enabled);
    assert_eq!(block.max_skill_level, "level1:index-summary");
    assert_eq!(block.injected_skill_level, "level1:index-summary");
    assert_eq!(block.injected_skill_ids, "skill.alpha,skill.beta");
    assert_eq!(block.evidence_refs, "verify:sample");
}

#[test]
fn disables_skill_fields_when_policy_disables_injection() {
    let request = sample_request();
    let policy = policy("ask_profile", "project_answer", (false, false, false, false, false), "disabled", "answer", false);
    let mut block = DynamicPromptBlock::default();
    fill_identity_fields(&mut block, &request, &policy);
    assert!(!block.skill_injection_enabled);
    assert_eq!(block.prompt_profile, "project_answer");
    assert_eq!(block.injected_skill_level, "disabled");
    assert_eq!(block.injected_skill_ids, "none");
}

#[test]
fn tool_preview_includes_mcp_hints_when_policy_allows_tools() {
    let mut request = sample_request();
    request.context_hints.insert(
        "mcp_tool_preview".to_string(),
        "MCP工具可自动执行或按策略拒绝：web/search - 搜索网页".to_string(),
    );
    let policy = policy("act_profile", "agent_resolve", (true, true, true, true, true), "level1:index-summary", "execute", false);
    let preview = selected_tool_preview(&request, &[sample_tool()], &policy);
    assert!(preview.contains("读取文件(workspace_read)"));
    assert!(preview.contains("web/search - 搜索网页"));
}

#[test]
fn fill_identity_fields_surfaces_injection_summary() {
    let request = sample_request();
    let policy = policy("repair_profile", "agent_resolve", (true, true, false, true, true), "level1:index-summary", "repair", true);
    let mut block = DynamicPromptBlock::default();
    fill_identity_fields(&mut block, &request, &policy);
    assert_eq!(block.assembly_profile, "repair_profile");
    assert_eq!(block.prompt_profile, "agent_resolve");
    assert!(block.injection_summary.contains("session digest"));
    assert!(block.injection_summary.contains("memory digest"));
    assert!(block.injection_summary.contains("tool preview"));
    assert!(block.injection_summary.contains("artifact hint"));
}

#[test]
fn project_answer_status_digest_prefers_current_hermes_docs() {
    let request = request_with_input(
        "我现在接手这个项目，请直接告诉我：当前停在什么状态、为什么不能继续默认推进、以及以后满足什么条件才值得重启。",
    );
    let policy = policy("ask_profile", "project_answer", (false, false, true, false, false), "disabled", "answer", false);
    let current = "/repo/docs/11-hermes-rebuild/current-state.md".to_string();
    let entries = vec![status_digest_entry(&current, "当前阶段：阶段 H。当前 Gate：Gate-H（执行中，未签收）。")];
    let knowledge = selected_knowledge_selection(&request, &policy, &entries, &[current.clone()], &sample_pack());
    assert!(knowledge.digest.contains("current-state"));
    assert!(knowledge.digest.contains("current-state.md"));
    assert!(!knowledge.digest.contains("docs\\07-test\\evidence"));
    assert_eq!(knowledge.question_type, "project_status");
    assert!(knowledge.match_reason.contains("项目状态问答"));
    assert_eq!(knowledge.citations, current);
}

#[test]
fn ask_profile_prefers_knowledge_pack_digest() {
    let request = request_with_input("agent 是什么，为什么需要 memory 和 context engineering");
    let policy = policy("ask_profile", "project_answer", (false, false, true, false, false), "disabled", "answer", false);
    let knowledge = selected_knowledge_selection(&request, &policy, &[], &[], &sample_pack());
    assert!(knowledge.digest.contains("knowledge pack"));
    assert!(!knowledge.question_type.is_empty());
}

#[test]
fn learn_profile_prefers_knowledge_pack_digest() {
    let request = request_with_input("请学习并整理 agent workflow 的可复用做法");
    let policy = policy("learn_profile", "agent_resolve", (false, false, true, false, false), "disabled", "learn", false);
    let knowledge = selected_knowledge_selection(&request, &policy, &[], &[], &sample_pack());
    assert!(knowledge.digest.contains("knowledge pack"));
    assert!(!knowledge.question_type.is_empty());
}

#[test]
fn other_profiles_summarize_hits_and_disabled_knowledge_says_so() {
    let request = request_with_input("随便问问");
    let act = policy("act_profile", "agent_resolve", (false, false, true, false, false), "disabled", "x", false);
    let k = selected_knowledge_selection(&request, &act, &[], &[], &sample_pack());
    assert_eq!(k.digest, "docs/agent.md: agent 需要 memory");
    assert_eq!(k.citations, "docs/agent.md");
    let off = policy("act_profile", "agent_resolve", (false, false, false, false, false), "disabled", "x", false);
    let none = selected_knowledge_selection(&request, &off, &[], &[], &sample_pack());
    assert_eq!(none.digest, "当前阶段未注入知识摘要。");
    assert!(none.question_type.is_empty());
}

#[test]
fn pack_digest_marks_missing_parts() {
    let digest = format_knowledge_pack_digest(&sample_pack());
    assert_eq!(
        digest,
        "knowledge pack：问题类型=concept；命中理由=关键词命中；主命中=docs/agent.md（定义）；辅助命中=未提供；回答提示=未提供；引证=docs/agent.md"
    );
}

#[test]
fn injection_summary_exact() {
    let none = policy("p", "q", (false, false, false, false, false), "disabled", "x", false);
    assert_eq!(injection_summary(&none), "当前 profile 未注入额外上下文块。");
    let two = policy("p", "q", (true, false, true, false, false), "disabled", "x", false);
    assert_eq!(injection_summary(&two), "当前 profile 注入：session digest + knowledge digest");
}

fn digest() -> MemoryDigest {
    MemoryDigest {
        summary: "摘要".to_string(),
        has_system_views: true,
        has_current_objects: false,
        current_object_count: 0,
        memory_route: "learn_route".to_string(),
        selected_layers: vec!["system views".to_string(), "history entries".to_string()],
        match_reason: "学习沉淀".to_string(),
        reuse_confidence: "high".to_string(),
        skipped_layers: vec!["current memory object".to_string()],
    }
}

#[test]
fn memory_selection_follows_policy() {
    let on = policy("learn_profile", "agent_resolve", (false, true, false, false, false), "disabled", "answer", false);
    let m: MemoryPromptSelection = selected_memory_selection(&on, &digest());
    assert!(m.digest.contains("记忆入口已按最小路由装配"));
    assert!(m.digest.contains("learn_route"));
    assert_eq!(m.selected_layers, "system views,history entries");
    assert_eq!(m.skipped_layers, "current memory object");
    assert_eq!(m.route, "learn_route");
    assert_eq!(format_memory_digest(&digest()), m.digest);
    let off = policy("x", "y", (false, false, false, false, false), "disabled", "answer", false);
    let d = selected_memory_selection(&off, &digest());
    assert_eq!(d.route, "memory_disabled");
    assert_eq!(d.reuse_confidence, "low");
}

#[test]
fn small_selections() {
    let on = policy("x", "y", (true, false, false, false, false), "disabled", "a", true);
    assert_eq!(selected_session_summary("会话", &on), "会话");
    let off = policy("x", "y", (false, false, false, false, false), "disabled", "a", false);
    assert_eq!(selected_session_summary("会话", &off), "当前阶段未注入会话摘要。");
    assert!(mode_prompt_text("observe").contains("`observe`"));
    assert!(mode_prompt_text("other").contains("`standard`"));
    assert_eq!(repo_doc_summary(&[]), "当前没有命中高价值说明文件。");
    let docs = vec![WorkspaceDocSummary {
        path: "README.md".to_string(),
        kind: "readme".to_string(),
        exists: true,
        summary: "说明".to_string(),
        truncated: false,
    }];
    assert_eq!(repo_doc_summary(&docs), "README.md: 说明");
    assert!(reasoning_summary("s", "m", "k", "o", "r", "a").starts_with("当前上下文调度原因：r。"));
}

#[test]
fn dynamic_block_carries_parts() {
    let request = sample_request();
    let policy = policy("act_profile", "agent_resolve", (true, true, true, true, true), "level1", "execute", false);
    let parts = PromptParts {
        session_summary: "会话".to_string(),
        memory: selected_memory_selection(&policy, &digest()),
        knowledge: KnowledgePromptSelection {
            digest: "知识".to_string(),
            question_type: "t".to_string(),
            citations: "c".to_string(),
            match_reason: "m".to_string(),
        },
        tool_preview: "工具".to_string(),
        artifact_hint: "无".to_string(),
        observation: ObservationInjection {
            injected_text: "obs".to_string(),
            references: vec!["a".to_string(), "b".to_string()],
            budget_total_chars: 1200,
            used_chars: 3,
            budget_hit: false,
            budget_total_tokens: 300,
            used_tokens: 1,
            budget_hit_tokens: false,
        },
    };
    let block = build_dynamic_block(&request, &policy, "miss", "r", &parts);
    assert_eq!(block.observation_references, "a,b");
    assert_eq!(block.cache_status, "miss");
    assert_eq!(block.knowledge_digest, "知识");
    assert_eq!(block.injected_skill_ids, "skill.alpha,skill.beta");
    assert!(block.reasoning_summary.contains("会话：会话"));
}

#[test]
fn artifact_hint_needs_path() {
    let on = policy("x", "y", (false, false, false, false, false), "disabled", "a", true);
    let session = SessionMemory {
        session_id: "s".to_string(),
        short_term: ShortTermMemory {
            current_goal: String::new(),
            current_plan: String::new(),
            open_issue: String::new(),
            pending_confirmation: String::new(),
            handoff_artifact_path: "tmp/h.json".to_string(),
            last_run_status: String::new(),
        },
        recent_turns: vec![],
        compressed_summary: String::new(),
    };
    assert_eq!(selected_artifact_hint(&session, &on), "优先参考交接包：tmp/h.json");
}
