//! Where a path named by a run lands inside its workspace: the path's
//! components are folded lexically (`.` dropped, `..` taking back the last
//! name) and the result must stay under the folded workspace root.
use vstd::prelude::*;
use crate::text::str_eq;

verus! {

/// One component of a path, as the host's path parser splits it.
pub enum PathComponent {
    /// A drive prefix or the root directory: it cannot be taken back by `..`.
    Anchor { text: String },
    /// `.`
    Current,
    /// `..`
    Parent,
    /// A file or folder name.
    Name { text: String },
}

/// A component as plain values: its kind and its text.
pub open spec fn component_model(c: PathComponent) -> (int, Seq<char>) {
    match c {
        PathComponent::Anchor { text } => (0, text@),
        PathComponent::Current => (1, Seq::empty()),
        PathComponent::Parent => (2, Seq::empty()),
        PathComponent::Name { text } => (3, text@),
    }
}

/// The components as plain values.
pub open spec fn components_model(cs: Seq<PathComponent>) -> Seq<(int, Seq<char>)> {
    cs.map_values(|c: PathComponent| component_model(c))
}

/// The components folded from the left: `.` is dropped, `..` removes the
/// last name (and does nothing after an anchor or at the start), anything
/// else is kept.
pub open spec fn folded(cs: Seq<(int, Seq<char>)>) -> Seq<(int, Seq<char>)>
    decreases cs.len(),
{
    if cs.len() == 0 {
        Seq::empty()
    } else {
        let before = folded(cs.drop_last());
        let c = cs.last();
        if c.0 == 1 {
            before
        } else if c.0 == 2 {
            if before.len() > 0 && before.last().0 == 3 {
                before.drop_last()
            } else {
                before
            }
        } else {
            before.push(c)
        }
    }
}

/// Where a path lands: an absolute path stands alone, a relative one is
/// taken from the root; it is kept only when it stays under the root.
pub open spec fn resolved_spec(
    root: Seq<(int, Seq<char>)>,
    path: Seq<(int, Seq<char>)>,
    path_is_absolute: bool,
) -> Option<Seq<(int, Seq<char>)>> {
    let base = folded(root);
    let r = if path_is_absolute { folded(path) } else { folded(root + path) };
    if base.len() <= r.len() && r.take(base.len() as int) == base {
        Some(r)
    } else {
        None
    }
}

fn copy_component(c: &PathComponent) -> (r: PathComponent)
    ensures
        component_model(r) == component_model(*c),
{
    match c {
        PathComponent::Anchor { text } => PathComponent::Anchor { text: text.clone() },
        PathComponent::Current => PathComponent::Current,
        PathComponent::Parent => PathComponent::Parent,
        PathComponent::Name { text } => PathComponent::Name { text: text.clone() },
    }
}

fn is_name(c: &PathComponent) -> (r: bool)
    ensures
        r == (component_model(*c).0 == 3),
{
    match c {
        PathComponent::Name { .. } => true,
        _ => false,
    }
}

/// The components folded (see `folded`).
pub fn fold_components(cs: &[PathComponent]) -> (r: Vec<PathComponent>)
    ensures
        components_model(r@) == folded(components_model(cs@)),
{
    let mut out: Vec<PathComponent> = Vec::new();
    let mut i: usize = 0;
    while i < cs.len()
        invariant
            i <= cs@.len(),
            components_model(out@) == folded(components_model(cs@.take(i as int))),
        decreases cs.len() - i,
    {
        let ghost m = components_model(cs@.take(i + 1));
        assert(m.drop_last() =~= components_model(cs@.take(i as int)));
        assert(m.last() == component_model(cs@[i as int]));
        let ghost before = out@;
        match &cs[i] {
            PathComponent::Current => {},
            PathComponent::Parent => {
                if out.len() > 0 && is_name(&out[out.len() - 1]) {
                    let _ = out.pop();
                    assert(components_model(out@) =~= components_model(before).drop_last());
                }
            },
            c => {
                let copy = copy_component(c);
                out.push(copy);
                assert(components_model(out@) =~= components_model(before).push(component_model(cs@[i as int])));
            },
        }
        i = i + 1;
    }
    assert(cs@.take(cs@.len() as int) =~= cs@);
    out
}

fn same_component(a: &PathComponent, b: &PathComponent) -> (r: bool)
    ensures
        r == (component_model(*a) == component_model(*b)),
{
    match (a, b) {
        (PathComponent::Anchor { text: x }, PathComponent::Anchor { text: y }) => str_eq(x.as_str(), y.as_str()),
        (PathComponent::Current, PathComponent::Current) => true,
        (PathComponent::Parent, PathComponent::Parent) => true,
        (PathComponent::Name { text: x }, PathComponent::Name { text: y }) => str_eq(x.as_str(), y.as_str()),
        _ => false,
    }
}

/// Whether `path` begins with all the components of `base`.
pub fn starts_with_components(path: &[PathComponent], base: &[PathComponent]) -> (r: bool)
    ensures
        r == (components_model(base@).len() <= components_model(path@).len() && components_model(path@).take(
            components_model(base@).len() as int) == components_model(base@)),
{
    if base.len() > path.len() {
        return false;
    }
    let mut i: usize = 0;
    while i < base.len()
        invariant
            i <= base@.len() <= path@.len(),
            forall|j: int| 0 <= j < i ==> component_model(#[trigger] path@[j]) == component_model(base@[j]),
        decreases base.len() - i,
    {
        if !same_component(&path[i], &base[i]) {
            assert(components_model(path@).take(base@.len() as int)[i as int] != components_model(base@)[i as int]);
            return false;
        }
        i = i + 1;
    }
    assert(components_model(path@).take(base@.len() as int) =~= components_model(base@));
    true
}

/// Where `path` lands under the workspace `root` (see `resolved_spec`):
/// the folded components, or none when they leave the root.
pub fn resolve_in_root(root: &[PathComponent], path: &[PathComponent], path_is_absolute: bool) -> (r: Option<Vec<PathComponent>>)
    ensures
        match r {
            Some(v) => resolved_spec(components_model(root@), components_model(path@), path_is_absolute) == Some(
                components_model(v@)),
            None => resolved_spec(components_model(root@), components_model(path@), path_is_absolute) is None,
        },
{
    let base = fold_components(root);
    let resolved = if path_is_absolute {
        fold_components(path)
    } else {
        let mut joined: Vec<PathComponent> = Vec::new();
        let mut i: usize = 0;
        while i < root.len()
            invariant
                i <= root@.len(),
                components_model(joined@) == components_model(root@.take(i as int)),
            decreases root.len() - i,
        {
            let ghost before = joined@;
            joined.push(copy_component(&root[i]));
            assert(components_model(joined@) =~= components_model(before).push(component_model(root@[i as int])));
            assert(components_model(root@.take(i + 1)) =~= components_model(root@.take(i as int)).push(
                component_model(root@[i as int])));
            assert(components_model(joined@) =~= components_model(root@.take(i + 1)));
            i = i + 1;
        }
        assert(root@.take(root@.len() as int) =~= root@);
        assert(components_model(path@.take(0)) =~= Seq::<(int, Seq<char>)>::empty());
        assert(components_model(joined@) =~= components_model(root@) + components_model(path@.take(0)));
        let mut j: usize = 0;
        while j < path.len()
            invariant
                j <= path@.len(),
                root@.take(root@.len() as int) == root@,
                components_model(joined@) == components_model(root@) + components_model(path@.take(j as int)),
            decreases path.len() - j,
        {
            let ghost before = joined@;
            joined.push(copy_component(&path[j]));
            assert(components_model(joined@) =~= components_model(before).push(component_model(path@[j as int])));
            assert(components_model(path@.take(j + 1)) =~= components_model(path@.take(j as int)).push(
                component_model(path@[j as int])));
            assert(components_model(joined@) =~= components_model(root@) + components_model(path@.take(j + 1)));
            j = j + 1;
        }
        assert(path@.take(path@.len() as int) =~= path@);
        assert(components_model(root@ + path@) =~= components_model(root@) + components_model(path@));
        fold_components(joined.as_slice())
    };
    if starts_with_components(resolved.as_slice(), base.as_slice()) {
        Some(resolved)
    } else {
        None
    }
}

/// A path a run may use never leaves its workspace: what `resolve_in_root`
/// keeps begins with every component of the folded root.
pub proof fn resolved_stays_in_root_law(root: Seq<(int, Seq<char>)>, path: Seq<(int, Seq<char>)>, path_is_absolute: bool)
    ensures
        resolved_spec(root, path, path_is_absolute) matches Some(r) ==> folded(root).len() <= r.len() && r.take(
            folded(root).len() as int) == folded(root),
{
}

/// A folded path holds no `.` and no `..`: only anchors and names.
pub proof fn folded_is_lexically_clean_law(cs: Seq<(int, Seq<char>)>)
    requires
        forall|i: int| 0 <= i < cs.len() ==> 0 <= (#[trigger] cs[i]).0 <= 3,
    ensures
        forall|i: int| 0 <= i < folded(cs).len() ==> (#[trigger] folded(cs)[i]).0 == 0 || folded(cs)[i].0 == 3,
    decreases cs.len(),
{
    if cs.len() > 0 {
        folded_is_lexically_clean_law(cs.drop_last());
        let before = folded(cs.drop_last());
        assert forall|i: int| 0 <= i < folded(cs).len() implies (#[trigger] folded(cs)[i]).0 == 0 || folded(cs)[i].0 == 3 by {
            if i < before.len() {
                assert(folded(cs)[i] == before[i]);
            }
        }
    }
}

} // verus!
