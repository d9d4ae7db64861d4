//! The memory digest that a recall produces: lines from the selected
//! memory layers, the route that chose them, and one summary line.
use vstd::prelude::*;
use crate::memory::MemoryEntry;
use crate::text::{
    dec_int, has_sub, join, push_str, str_eq, summarize_text, summary_of, i32_text, views, join_strings, contains,
};

verus! {

/// The layer of system views.
pub const SYSTEM_LAYER: &'static str = "system views";
/// The layer of current memory objects.
pub const OBJECT_LAYER: &'static str = "current memory object";
/// The layer of history entries.
pub const HISTORY_LAYER: &'static str = "history entries";

/// The route a recall took: its name, the layers it selected and skipped,
/// why, and how far its result can be reused.
#[derive(Clone, Debug)]
pub struct MemoryRouteSelection {
    pub route: String,
    pub selected_layers: Vec<String>,
    pub match_reason: String,
    pub reuse_confidence: String,
    pub skipped_layers: Vec<String>,
}

/// A summary of one system view.
#[derive(Clone, Debug)]
pub struct SystemViewSummary {
    pub uri: String,
    pub summary: String,
}

/// What a recall found, summarized.
#[derive(Clone, Debug)]
pub struct MemoryDigest {
    pub summary: String,
    pub has_system_views: bool,
    pub has_current_objects: bool,
    pub current_object_count: usize,
    pub memory_route: String,
    pub selected_layers: Vec<String>,
    pub match_reason: String,
    pub reuse_confidence: String,
    pub skipped_layers: Vec<String>,
}

/// The digest line of a system view.
pub open spec fn system_view_line_spec(v: SystemViewSummary) -> Seq<char> {
    "[system] "@ + v.uri@ + " | "@ + v.summary@
}

/// The time an entry was last changed: its update time, else its entry time.
pub open spec fn updated_at_spec(e: MemoryEntry) -> Seq<char> {
    if e.updated_at@.len() == 0 {
        e.timestamp@
    } else {
        e.updated_at@
    }
}

/// Why an entry was recalled.
pub open spec fn memory_reason_spec(e: MemoryEntry) -> Seq<char> {
    if e.source_type@ == "seed"@ {
        "基线记忆优先"@
    } else if e.source_type@ == "memory_object_current"@ {
        "current memory object 命中"@
    } else if has_sub(e.source@, "README"@) || has_sub(e.source@, "docs/06-development"@) {
        "高价值文档命中"@
    } else {
        "按当前输入相关性召回"@
    }
}

/// The digest line of a current memory object.
pub open spec fn object_line_spec(e: MemoryEntry) -> Seq<char> {
    "[object] "@ + e.summary@ + " | URI="@ + e.source@ + " | 别名="@ + summary_of(e.source_artifact_path@)
        + " | 优先级="@ + dec_int(e.priority as int) + " | 更新时间="@ + updated_at_spec(e)
}

/// The digest line of a history entry.
pub open spec fn memory_line_spec(e: MemoryEntry) -> Seq<char> {
    "["@ + e.kind@ + "] "@ + e.summary@ + " | 来源="@ + e.source@ + " | 类型="@ + e.source_type@ + " | 理由="@
        + memory_reason_spec(e) + " | 优先级="@ + dec_int(e.priority as int) + " | 更新时间="@ + updated_at_spec(e)
}

/// The digest line of a system view.
pub fn system_view_line(v: &SystemViewSummary) -> (r: String)
    ensures
        r@ == system_view_line_spec(*v),
{
    let mut out = String::from_str("[system] ");
    push_str(&mut out, v.uri.as_str());
    push_str(&mut out, " | ");
    push_str(&mut out, v.summary.as_str());
    out
}

/// The time an entry was last changed.
pub fn memory_updated_at(e: &MemoryEntry) -> (r: &str)
    ensures
        r@ == updated_at_spec(*e),
{
    if e.updated_at.as_str().is_empty() {
        e.timestamp.as_str()
    } else {
        e.updated_at.as_str()
    }
}

/// Why an entry was recalled.
pub fn memory_reason(e: &MemoryEntry) -> (r: &'static str)
    ensures
        r@ == memory_reason_spec(*e),
{
    if str_eq(e.source_type.as_str(), "seed") {
        "基线记忆优先"
    } else if str_eq(e.source_type.as_str(), "memory_object_current") {
        "current memory object 命中"
    } else if contains(e.source.as_str(), "README") || contains(e.source.as_str(), "docs/06-development") {
        "高价值文档命中"
    } else {
        "按当前输入相关性召回"
    }
}

/// The digest line of a current memory object.
pub fn memory_object_line(e: &MemoryEntry) -> (r: String)
    ensures
        r@ == object_line_spec(*e),
{
    let mut out = String::from_str("[object] ");
    push_str(&mut out, e.summary.as_str());
    push_str(&mut out, " | URI=");
    push_str(&mut out, e.source.as_str());
    push_str(&mut out, " | 别名=");
    let alias = summarize_text(e.source_artifact_path.as_str());
    push_str(&mut out, alias.as_str());
    push_str(&mut out, " | 优先级=");
    let p = i32_text(e.priority);
    push_str(&mut out, p.as_str());
    push_str(&mut out, " | 更新时间=");
    push_str(&mut out, memory_updated_at(e));
    out
}

/// The digest line of a history entry.
pub fn memory_line(e: &MemoryEntry) -> (r: String)
    ensures
        r@ == memory_line_spec(*e),
{
    let mut out = String::from_str("[");
    push_str(&mut out, e.kind.as_str());
    push_str(&mut out, "] ");
    push_str(&mut out, e.summary.as_str());
    push_str(&mut out, " | 来源=");
    push_str(&mut out, e.source.as_str());
    push_str(&mut out, " | 类型=");
    push_str(&mut out, e.source_type.as_str());
    push_str(&mut out, " | 理由=");
    push_str(&mut out, memory_reason(e));
    push_str(&mut out, " | 优先级=");
    let p = i32_text(e.priority);
    push_str(&mut out, p.as_str());
    push_str(&mut out, " | 更新时间=");
    push_str(&mut out, memory_updated_at(e));
    out
}

/// The route selected the layer.
pub open spec fn wants_layer_spec(route: MemoryRouteSelection, layer: Seq<char>) -> bool {
    exists|j: int| 0 <= j < route.selected_layers@.len() && #[trigger] route.selected_layers@[j]@ == layer
}

/// Whether the route selected the layer.
pub fn wants_layer(route: &MemoryRouteSelection, layer: &str) -> (r: bool)
    ensures
        r == wants_layer_spec(*route, layer@),
{
    let mut i: usize = 0;
    while i < route.selected_layers.len()
        invariant
            i <= route.selected_layers@.len(),
            forall|j: int| 0 <= j < i ==> #[trigger] route.selected_layers@[j]@ != layer@,
        decreases route.selected_layers.len() - i,
    {
        if str_eq(route.selected_layers[i].as_str(), layer) {
            return true;
        }
        i = i + 1;
    }
    false
}

/// The lines of the system views, objects and entries, in that order.
pub open spec fn all_lines(views_: Seq<SystemViewSummary>, objects: Seq<MemoryEntry>, entries: Seq<MemoryEntry>) -> Seq<
    Seq<char>,
> {
    views_.map_values(|v: SystemViewSummary| system_view_line_spec(v)) + objects.map_values(
        |e: MemoryEntry| object_line_spec(e),
    ) + entries.map_values(|e: MemoryEntry| memory_line_spec(e))
}

/// The lines of the layers the route selected, in the same order.
pub open spec fn selected_lines(
    route: MemoryRouteSelection,
    views_: Seq<SystemViewSummary>,
    objects: Seq<MemoryEntry>,
    entries: Seq<MemoryEntry>,
) -> Seq<Seq<char>> {
    (if wants_layer_spec(route, SYSTEM_LAYER@) {
        views_.map_values(|v: SystemViewSummary| system_view_line_spec(v))
    } else {
        seq![]
    }) + (if wants_layer_spec(route, OBJECT_LAYER@) {
        objects.map_values(|e: MemoryEntry| object_line_spec(e))
    } else {
        seq![]
    }) + (if wants_layer_spec(route, HISTORY_LAYER@) {
        entries.map_values(|e: MemoryEntry| memory_line_spec(e))
    } else {
        seq![]
    })
}

/// The first three of a list of lines.
pub open spec fn first_three(s: Seq<Seq<char>>) -> Seq<Seq<char>> {
    if s.len() <= 3 {
        s
    } else {
        s.take(3)
    }
}

fn push_view_lines(lines: &mut Vec<String>, views_: &[SystemViewSummary])
    ensures
        views(final(lines)@) == views(old(lines)@) + views_@.map_values(|v: SystemViewSummary| system_view_line_spec(v)),
{
    let ghost start = views(lines@);
    let mut i: usize = 0;
    while i < views_.len()
        invariant
            i <= views_@.len(),
            views(lines@) == start + views_@.take(i as int).map_values(|v: SystemViewSummary| system_view_line_spec(v)),
        decreases views_.len() - i,
    {
        let line = system_view_line(&views_[i]);
        let ghost before = lines@;
        let ghost lv = line@;
        lines.push(line);
        assert(views(lines@) =~= views(before).push(lv));
        assert(views_@.take(i + 1).map_values(|v: SystemViewSummary| system_view_line_spec(v)) =~= views_@.take(i as int).map_values(|v: SystemViewSummary| system_view_line_spec(v)).push(system_view_line_spec(views_@[i as int])));
        i = i + 1;
        assert(views(lines@) =~= start + views_@.take(i as int).map_values(|v: SystemViewSummary| system_view_line_spec(v)));
    }
    assert(views_@.take(views_@.len() as int) =~= views_@);
}

fn push_object_lines(lines: &mut Vec<String>, objects: &[MemoryEntry])
    ensures
        views(final(lines)@) == views(old(lines)@) + objects@.map_values(|e: MemoryEntry| object_line_spec(e)),
{
    let ghost start = views(lines@);
    let mut i: usize = 0;
    while i < objects.len()
        invariant
            i <= objects@.len(),
            views(lines@) == start + objects@.take(i as int).map_values(|e: MemoryEntry| object_line_spec(e)),
        decreases objects.len() - i,
    {
        let line = memory_object_line(&objects[i]);
        let ghost before = lines@;
        let ghost lv = line@;
        lines.push(line);
        assert(views(lines@) =~= views(before).push(lv));
        assert(objects@.take(i + 1).map_values(|e: MemoryEntry| object_line_spec(e)) =~= objects@.take(i as int).map_values(|e: MemoryEntry| object_line_spec(e)).push(object_line_spec(objects@[i as int])));
        i = i + 1;
        assert(views(lines@) =~= start + objects@.take(i as int).map_values(|e: MemoryEntry| object_line_spec(e)));
    }
    assert(objects@.take(objects@.len() as int) =~= objects@);
}

fn push_entry_lines(lines: &mut Vec<String>, entries: &[MemoryEntry])
    ensures
        views(final(lines)@) == views(old(lines)@) + entries@.map_values(|e: MemoryEntry| memory_line_spec(e)),
{
    let ghost start = views(lines@);
    let mut i: usize = 0;
    while i < entries.len()
        invariant
            i <= entries@.len(),
            views(lines@) == start + entries@.take(i as int).map_values(|e: MemoryEntry| memory_line_spec(e)),
        decreases entries.len() - i,
    {
        let line = memory_line(&entries[i]);
        let ghost before = lines@;
        let ghost lv = line@;
        lines.push(line);
        assert(views(lines@) =~= views(before).push(lv));
        assert(entries@.take(i + 1).map_values(|e: MemoryEntry| memory_line_spec(e)) =~= entries@.take(i as int).map_values(|e: MemoryEntry| memory_line_spec(e)).push(memory_line_spec(entries@[i as int])));
        i = i + 1;
        assert(views(lines@) =~= start + entries@.take(i as int).map_values(|e: MemoryEntry| memory_line_spec(e)));
    }
    assert(entries@.take(entries@.len() as int) =~= entries@);
}

fn first_three_lines(lines: Vec<String>) -> (r: Vec<String>)
    ensures
        views(r@) == first_three(views(lines@)),
{
    if lines.len() <= 3 {
        return lines;
    }
    let mut out: Vec<String> = Vec::new();
    let mut i: usize = 0;
    while i < 3
        invariant
            i <= 3 < lines@.len(),
            out@ == lines@.take(i as int),
        decreases 3 - i,
    {
        out.push(lines[i].clone());
        i = i + 1;
        assert(out@ =~= lines@.take(i as int));
    }
    assert(views(out@) =~= views(lines@).take(3));
    out
}

/// The first three lines of the layers the route selected.
pub fn selected_digest_lines(
    route: &MemoryRouteSelection,
    system_views: &[SystemViewSummary],
    object_entries: &[MemoryEntry],
    entries: &[MemoryEntry],
) -> (r: Vec<String>)
    ensures
        views(r@) == first_three(selected_lines(*route, system_views@, object_entries@, entries@)),
{
    let mut lines: Vec<String> = Vec::new();
    assert(views(lines@) =~= Seq::<Seq<char>>::empty());
    let ghost a = views(lines@);
    if wants_layer(route, SYSTEM_LAYER) {
        push_view_lines(&mut lines, system_views);
    }
    let ghost b = views(lines@);
    if wants_layer(route, OBJECT_LAYER) {
        push_object_lines(&mut lines, object_entries);
    }
    let ghost c = views(lines@);
    if wants_layer(route, HISTORY_LAYER) {
        push_entry_lines(&mut lines, entries);
    }
    assert(views(lines@) =~= selected_lines(*route, system_views@, object_entries@, entries@));
    first_three_lines(lines)
}

/// The first three lines of all layers.
pub fn fallback_digest_lines(
    system_views: &[SystemViewSummary],
    object_entries: &[MemoryEntry],
    entries: &[MemoryEntry],
) -> (r: Vec<String>)
    ensures
        views(r@) == first_three(all_lines(system_views@, object_entries@, entries@)),
{
    let mut lines: Vec<String> = Vec::new();
    assert(views(lines@) =~= Seq::<Seq<char>>::empty());
    push_view_lines(&mut lines, system_views);
    push_object_lines(&mut lines, object_entries);
    push_entry_lines(&mut lines, entries);
    assert(views(lines@) =~= all_lines(system_views@, object_entries@, entries@));
    first_three_lines(lines)
}

/// The summary of a digest: the route and its reasons with the preferred
/// lines, summarized, or the no-hit text when nothing was found.
pub open spec fn digest_summary_spec(route: MemoryRouteSelection, selected: Seq<Seq<char>>, fallback: Seq<Seq<char>>) -> Seq<
    char,
> {
    if selected.len() == 0 && fallback.len() == 0 {
        "当前没有命中相关长期记忆。"@
    } else {
        let lines = if selected.len() == 0 { fallback } else { selected };
        summary_of(
            "记忆路由："@ + route.route@ + "；选中层："@ + join(views(route.selected_layers@), " + "@) + "；命中原因："@
                + route.match_reason@ + "；复用置信度："@ + route.reuse_confidence@ + "；摘要："@ + join(lines, " || "@),
        )
    }
}

/// The selected lines, or the fallback lines when none were selected.
pub fn preferred_lines<'a>(selected: &'a [String], fallback: &'a [String]) -> (r: &'a [String])
    ensures
        r@ == if selected@.len() == 0 { fallback@ } else { selected@ },
{
    if selected.len() == 0 {
        fallback
    } else {
        selected
    }
}

/// The summary of a digest (see `digest_summary_spec`).
pub fn digest_summary(route: &MemoryRouteSelection, selected: &[String], fallback: &[String]) -> (r: String)
    ensures
        r@ == digest_summary_spec(*route, views(selected@), views(fallback@)),
{
    if selected.len() == 0 && fallback.len() == 0 {
        return String::from_str("当前没有命中相关长期记忆。");
    }
    let lines = preferred_lines(selected, fallback);
    let mut text = String::from_str("记忆路由：");
    push_str(&mut text, route.route.as_str());
    push_str(&mut text, "；选中层：");
    let layers = join_strings(route.selected_layers.as_slice(), " + ");
    push_str(&mut text, layers.as_str());
    push_str(&mut text, "；命中原因：");
    push_str(&mut text, route.match_reason.as_str());
    push_str(&mut text, "；复用置信度：");
    push_str(&mut text, route.reuse_confidence.as_str());
    push_str(&mut text, "；摘要：");
    let joined = join_strings(lines, " || ");
    push_str(&mut text, joined.as_str());
    assert(route.selected_layers@.map_values(|s: String| s@) =~= views(route.selected_layers@));
    assert(lines@.map_values(|s: String| s@) =~= (if selected@.len() == 0 { views(fallback@) } else { views(selected@) }));
    summarize_text(text.as_str())
}

fn copy_strings(list: &Vec<String>) -> (r: Vec<String>)
    ensures
        r@ == list@,
{
    let mut out: Vec<String> = Vec::new();
    let mut i: usize = 0;
    while i < list.len()
        invariant
            i <= list@.len(),
            out@ == list@.take(i as int),
        decreases list.len() - i,
    {
        out.push(list[i].clone());
        i = i + 1;
        assert(out@ =~= list@.take(i as int));
    }
    assert(list@.take(list@.len() as int) =~= list@);
    out
}

/// The digest of a recall from what each layer returned.
pub fn build_memory_digest(
    route: &MemoryRouteSelection,
    system_views: &[SystemViewSummary],
    object_entries: &[MemoryEntry],
    entries: &[MemoryEntry],
) -> (d: MemoryDigest)
    ensures
        d.summary@ == digest_summary_spec(
            *route,
            first_three(selected_lines(*route, system_views@, object_entries@, entries@)),
            first_three(all_lines(system_views@, object_entries@, entries@)),
        ),
        d.has_system_views == (system_views@.len() > 0),
        d.has_current_objects == (object_entries@.len() > 0),
        d.current_object_count == object_entries@.len(),
        d.memory_route == route.route,
        d.selected_layers@ == route.selected_layers@,
        d.match_reason == route.match_reason,
        d.reuse_confidence == route.reuse_confidence,
        d.skipped_layers@ == route.skipped_layers@,
{
    let selected = selected_digest_lines(route, system_views, object_entries, entries);
    let fallback = fallback_digest_lines(system_views, object_entries, entries);
    MemoryDigest {
        summary: digest_summary(route, selected.as_slice(), fallback.as_slice()),
        has_system_views: system_views.len() > 0,
        has_current_objects: object_entries.len() > 0,
        current_object_count: object_entries.len(),
        memory_route: route.route.clone(),
        selected_layers: copy_strings(&route.selected_layers),
        match_reason: route.match_reason.clone(),
        reuse_confidence: route.reuse_confidence.clone(),
        skipped_layers: copy_strings(&route.skipped_layers),
    }
}

} // verus!
