//! How the memory layers of a recall are described: from its digest, from
//! the metadata of its event, or from the reasoning text that mentions it.
use vstd::prelude::*;
use crate::memory_recall::MemoryDigest;
use crate::metadata::Metadata;
use crate::text::{
    dec, first_at, has_sub, join, join_strings, join_strs, parse_usize, parse_usize_spec, push_str, split_char,
    split_csv, split_once, trim, trim_end_char, trim_end_matches_char, trimmed, trimmed_nonblank, usize_text, views,
};

verus! {

/// The names of the layers a digest used, in order.
pub open spec fn layer_names(system: bool, objects: bool) -> Seq<Seq<char>> {
    if system && objects {
        seq!["system views"@, "current memory object"@]
    } else if system {
        seq!["system views"@]
    } else if objects {
        seq!["current memory object"@]
    } else {
        seq![]
    }
}

/// A phrase naming the layers and the object count, with `mid` and `end`
/// around the count; plain long-term memory when no layer was used.
pub open spec fn layers_phrase(system: bool, objects: bool, count: nat, mid: Seq<char>, end: Seq<char>) -> Seq<char> {
    let names = layer_names(system, objects);
    if names.len() == 0 {
        "普通长期记忆"@
    } else {
        join(names, " + "@) + mid + dec(count) + end
    }
}

fn layers_text(system: bool, objects: bool, count: usize, mid: &str, end: &str) -> (r: String)
    ensures
        r@ == layers_phrase(system, objects, count as nat, mid@, end@),
{
    let mut layers: Vec<&str> = Vec::new();
    if system {
        layers.push("system views");
    }
    if objects {
        layers.push("current memory object");
    }
    assert(layers@.map_values(|s: &str| s@) =~= layer_names(system, objects));
    if layers.len() == 0 {
        return String::from_str("普通长期记忆");
    }
    let mut out = join_strs(layers.as_slice(), " + ");
    push_str(&mut out, mid);
    let n = usize_text(count);
    push_str(&mut out, n.as_str());
    push_str(&mut out, end);
    out
}

/// The layers of a digest, as a phrase with the object count.
pub fn digest_layer_phrase(digest: &MemoryDigest) -> (r: String)
    ensures
        r@ == layers_phrase(digest.has_system_views, digest.has_current_objects, digest.current_object_count as nat,
            "，对象 "@, " 条"@),
{
    layers_text(digest.has_system_views, digest.has_current_objects, digest.current_object_count, "，对象 ", " 条")
}

/// The layers of a digest, as a summary with the object count in brackets.
pub fn digest_layer_summary(digest: &MemoryDigest) -> (r: String)
    ensures
        r@ == layers_phrase(digest.has_system_views, digest.has_current_objects, digest.current_object_count as nat,
            "（对象 "@, " 条）"@),
{
    layers_text(digest.has_system_views, digest.has_current_objects, digest.current_object_count, "（对象 ", " 条）")
}

/// The skipped layers, or `none`.
pub open spec fn skipped_text_spec(layers: Seq<Seq<char>>) -> Seq<char> {
    if layers.len() == 0 {
        "none"@
    } else {
        join(layers, " + "@)
    }
}

/// The route of a recall: nothing without route or layers; the selected
/// layers without a route; the route alone without layers; else the route,
/// the selected layers and the skipped ones.
pub open spec fn route_summary_spec(route: Seq<char>, selected: Seq<Seq<char>>, skipped: Seq<Seq<char>>) -> Seq<char> {
    if route.len() == 0 && selected.len() == 0 {
        Seq::empty()
    } else if route.len() == 0 {
        join(selected, " + "@)
    } else if selected.len() == 0 {
        route
    } else {
        route + " -> "@ + join(selected, " + "@) + "（跳过："@ + skipped_text_spec(skipped) + "）"@
    }
}

/// The skipped layers, or `none`.
pub fn skipped_layers_text(layers: &[String]) -> (r: String)
    ensures
        r@ == skipped_text_spec(views(layers@)),
{
    if layers.len() == 0 {
        String::from_str("none")
    } else {
        let r = join_strings(layers, " + ");
        assert(layers@.map_values(|s: String| s@) =~= views(layers@));
        r
    }
}

/// The route of a recall (see `route_summary_spec`).
pub fn route_summary(route: &str, selected: &[String], skipped: &[String]) -> (r: String)
    ensures
        r@ == route_summary_spec(route@, views(selected@), views(skipped@)),
{
    assert(selected@.map_values(|s: String| s@) =~= views(selected@));
    if route.is_empty() && selected.len() == 0 {
        return String::new();
    }
    if route.is_empty() {
        return join_strings(selected, " + ");
    }
    if selected.len() == 0 {
        return String::from_str(route);
    }
    let mut out = String::from_str(route);
    push_str(&mut out, " -> ");
    let sel = join_strings(selected, " + ");
    push_str(&mut out, sel.as_str());
    push_str(&mut out, "（跳过：");
    let sk = skipped_layers_text(skipped);
    push_str(&mut out, sk.as_str());
    push_str(&mut out, "）");
    out
}

/// The route of the recall a digest records.
pub fn digest_route_summary(digest: &MemoryDigest) -> (r: String)
    ensures
        r@ == route_summary_spec(digest.memory_route@, views(digest.selected_layers@), views(digest.skipped_layers@)),
{
    route_summary(digest.memory_route.as_str(), digest.selected_layers.as_slice(), digest.skipped_layers.as_slice())
}

/// The layers listed under `key`, comma-separated.
pub open spec fn csv_of(m: Metadata, key: Seq<char>) -> Seq<Seq<char>> {
    trimmed_nonblank(split_char(m.text(key), ','))
}

/// The route of the recall an event's metadata records.
pub fn metadata_route_summary(metadata: &Metadata) -> (r: String)
    ensures
        r@ == route_summary_spec(
            metadata.text("memory_route"@),
            csv_of(*metadata, "memory_selected_layers"@),
            csv_of(*metadata, "memory_skipped_layers"@),
        ),
{
    let route = metadata.text_of("memory_route");
    let selected_text = metadata.text_of("memory_selected_layers");
    let selected = split_csv(selected_text.as_str());
    let skipped_text = metadata.text_of("memory_skipped_layers");
    let skipped = split_csv(skipped_text.as_str());
    route_summary(route.as_str(), selected.as_slice(), skipped.as_slice())
}

/// The number stored under `key`, or 0 when it is missing or not a number.
pub open spec fn metadata_usize_spec(m: Metadata, key: Seq<char>) -> nat {
    if m@.contains_key(key) {
        match parse_usize_spec(m@[key]) {
            Some(n) => n,
            None => 0,
        }
    } else {
        0
    }
}

/// The number stored under `key` (see `metadata_usize_spec`).
pub fn metadata_usize(metadata: &Metadata, key: &str) -> (r: usize)
    ensures
        r as nat == metadata_usize_spec(*metadata, key@),
{
    match metadata.get(key) {
        Some(v) => match parse_usize(v.as_str()) {
            Some(n) => n,
            None => 0,
        },
        None => 0,
    }
}

/// The layers of the recall an event's metadata records, with the object count.
pub fn metadata_layer_summary(metadata: &Metadata) -> (r: String)
    ensures
        r@ == layers_phrase(
            metadata.flag("memory_has_system_views"@),
            metadata.flag("memory_has_current_objects"@),
            metadata_usize_spec(*metadata, "memory_current_object_count"@),
            "（对象 "@,
            " 条）"@,
        ),
{
    let system = metadata.flag_of("memory_has_system_views");
    let objects = metadata.flag_of("memory_has_current_objects");
    let count = metadata_usize(metadata, "memory_current_object_count");
    layers_text(system, objects, count, "（对象 ", " 条）")
}

/// The recall layer a reasoning text names after `本次召回层为`, trimmed and
/// without its closing full stops; empty when it names none.
pub open spec fn reasoning_layer_spec(reasoning: Seq<char>) -> Seq<char> {
    let marker = "本次召回层为"@;
    if has_sub(reasoning, marker) {
        trim_end_char(trim(reasoning.skip(first_at(reasoning, marker) + marker.len())), '。')
    } else {
        Seq::empty()
    }
}

/// The recall layer a reasoning text names (see `reasoning_layer_spec`).
pub fn reasoning_layer_summary(reasoning: &str) -> (r: String)
    ensures
        r@ == reasoning_layer_spec(reasoning@),
{
    match split_once(reasoning, "本次召回层为") {
        None => String::new(),
        Some((_, rest)) => {
            let t = trimmed(rest.as_str());
            trim_end_matches_char(t.as_str(), '。')
        },
    }
}

} // verus!
