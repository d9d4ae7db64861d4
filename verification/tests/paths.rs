use runtime_core::paths::{resolve_in_root, PathComponent};

fn name(t: &str) -> PathComponent {
    PathComponent::Name { text: t.to_string() }
}

fn root() -> Vec<PathComponent> {
    vec![PathComponent::Anchor { text: "/".to_string() }, name("work"), name("repo")]
}

fn names(parts: &[PathComponent]) -> Vec<String> {
    parts
        .iter()
        .map(|p| match p {
            PathComponent::Anchor { text } | PathComponent::Name { text } => text.clone(),
            PathComponent::Current => ".".to_string(),
            PathComponent::Parent => "..".to_string(),
        })
        .collect()
}

#[test]
fn relative_path_folds_inside_root() {
    let path = vec![name("docs"), PathComponent::Current, name("a"), PathComponent::Parent, name("b.md")];
    let r = resolve_in_root(&root(), &path, false).unwrap();
    assert_eq!(names(&r), vec!["/", "work", "repo", "docs", "b.md"]);
}

#[test]
fn path_leaving_root_is_refused() {
    let path = vec![PathComponent::Parent, name("other")];
    assert!(resolve_in_root(&root(), &path, false).is_none());
    let absolute = vec![PathComponent::Anchor { text: "/".to_string() }, name("etc")];
    assert!(resolve_in_root(&root(), &absolute, true).is_none());
}

#[test]
fn absolute_path_under_root_is_kept() {
    let absolute = vec![PathComponent::Anchor { text: "/".to_string() }, name("work"), name("repo"), name("x")];
    let r = resolve_in_root(&root(), &absolute, true).unwrap();
    assert_eq!(names(&r), vec!["/", "work", "repo", "x"]);
}

#[test]
fn parent_cannot_pass_the_anchor() {
    let short_root = vec![PathComponent::Anchor { text: "/".to_string() }];
    let path = vec![PathComponent::Parent, PathComponent::Parent, name("a")];
    let r = resolve_in_root(&short_root, &path, false).unwrap();
    assert_eq!(names(&r), vec!["/", "a"]);
}
