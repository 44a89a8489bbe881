use vstd::prelude::*;
use crate::assoc::{lookup, lemma_lookup_found, lemma_lookup_missing};
use crate::text::{concat3, debug_quote, debug_text, same_text};

verus! {

/// The containers of a configuration, each with the containers that its
/// setup steps depend on, in the order of the steps.
pub type DepGraph = Seq<(Seq<char>, Seq<Seq<char>>)>;

/// The graph of the exec list `g`.
pub open spec fn graph_view(g: Seq<(String, Vec<String>)>) -> DepGraph {
    g.map_values(|e: (String, Vec<String>)| (e.0@, e.1@.map_values(|s: String| s@)))
}

/// The error of a container that depends on itself.
pub open spec fn cyclic_error(name: Seq<char>) -> Seq<char> {
    "Container "@ + debug_text(name) + " has cyclic dependency"@
}

/// The error of a dependency `sub` of the checks of `name` that names no
/// container.
pub open spec fn missing_error(sub: Seq<char>, name: Seq<char>) -> Seq<char> {
    "Container "@ + debug_text(sub) + " referenced from "@ + debug_text(name) + " is not found"@
}

/// What checking that the dependencies `deps` (and, through them, the
/// containers they name) never lead back to the container `name` gives:
/// the first problem met going through them depth first, or `Ok`. `None`
/// where the walk does not end within `fuel` nested containers.
pub open spec fn check_deps(g: DepGraph, name: Seq<char>, deps: Seq<Seq<char>>, fuel: nat) -> Option<Result<(), Seq<char>>>
    decreases fuel, deps.len(),
{
    if deps.len() == 0 {
        Some(Ok(()))
    } else {
        let d = deps[0];
        if d == name {
            Some(Err(cyclic_error(name)))
        } else {
            match lookup(g, d) {
                None => Some(Err(missing_error(d, name))),
                Some(sub) => if fuel == 0 {
                    None
                } else {
                    match check_deps(g, name, sub, (fuel - 1) as nat) {
                        Some(Ok(())) => check_deps(g, name, deps.drop_first(), fuel),
                        other => other,
                    }
                },
            }
        }
    }
}

fn find_entry(g: &Vec<(String, Vec<String>)>, name: &str) -> (r: Option<usize>)
    ensures
        match r {
            Some(i) => i < g@.len() && lookup(graph_view(g@), name@) == Some(
                graph_view(g@)[i as int].1,
            ),
            None => lookup(graph_view(g@), name@) is None,
        },
{
    let mut i: usize = 0;
    while i < g.len()
        invariant
            i <= g@.len(),
            forall|j: int| 0 <= j < i ==> graph_view(g@)[j].0 != name@,
        decreases g.len() - i,
    {
        if same_text(g[i].0.as_str(), name) {
            proof {
                lemma_lookup_found(graph_view(g@), i as int, name@);
            }
            return Some(i);
        }
        i = i + 1;
    }
    proof {
        lemma_lookup_missing(graph_view(g@), name@);
    }
    None
}

fn deps_from(g: &Vec<(String, Vec<String>)>, name: &str, deps: &Vec<String>, k: usize, fuel: usize) -> (r: Option<Result<(), String>>)
    requires
        k <= deps@.len(),
    ensures
        match check_deps(graph_view(g@), name@, deps@.map_values(|s: String| s@).skip(k as int), fuel as nat) {
            None => r is None,
            Some(Ok(())) => r == Some(Ok::<(), String>(())),
            Some(Err(e)) => r matches Some(Err(m)) && m@ == e,
        },
    decreases fuel, deps@.len() - k,
{
    let ghost dv = deps@.map_values(|s: String| s@);
    if k == deps.len() {
        assert(dv.skip(k as int).len() == 0);
        return Some(Ok(()));
    }
    let d = deps[k].as_str();
    assert(dv.skip(k as int)[0] == d@);
    assert(dv.skip(k as int).drop_first() =~= dv.skip(k + 1));
    if same_text(d, name) {
        let a = concat3("Container ", debug_quote(name).as_str(), " has cyclic dependency");
        return Some(Err(a));
    }
    match find_entry(g, d) {
        None => {
            let a = concat3("Container ", debug_quote(d).as_str(), " referenced from ");
            let b = concat3(a.as_str(), debug_quote(name).as_str(), " is not found");
            Some(Err(b))
        },
        Some(i) => {
            if fuel == 0 {
                return None;
            }
            assert(graph_view(g@)[i as int].1 == g@[i as int].1@.map_values(|s: String| s@));
            assert(g@[i as int].1@.map_values(|s: String| s@).skip(0) =~= g@[i as int].1@.map_values(
                |s: String| s@,
            ));
            match deps_from(g, name, &g[i].1, 0, fuel - 1) {
                Some(Ok(())) => deps_from(g, name, deps, k + 1, fuel),
                other => other,
            }
        },
    }
}

/// What checking the container `name`, whose setup steps depend on
/// `deps`, finds: a dependency that leads back to it, or one that names no
/// container, or nothing. `None` where a chain of dependencies repeats
/// another container without ever leading back to `name` (vagga would
/// follow it for ever).
pub fn validate_container(g: &Vec<(String, Vec<String>)>, name: &str, deps: &Vec<String>) -> (r: Option<Result<(), String>>)
    ensures
        match check_deps(graph_view(g@), name@, deps@.map_values(|s: String| s@), g@.len() as nat) {
            None => r is None,
            Some(Ok(())) => r == Some(Ok::<(), String>(())),
            Some(Err(e)) => r matches Some(Err(m)) && m@ == e,
        },
{
    assert(deps@.map_values(|s: String| s@).skip(0) =~= deps@.map_values(|s: String| s@));
    deps_from(g, name, deps, 0, g.len())
}

/// What checking the containers of the graph `g` in order gives: the
/// first problem found.
pub open spec fn check_all(g: DepGraph, k: int) -> Option<Result<(), Seq<char>>>
    decreases g.len() - k,
{
    if k >= g.len() || k < 0 {
        Some(Ok(()))
    } else {
        match check_deps(g, g[k].0, g[k].1, g.len() as nat) {
            Some(Ok(())) => check_all(g, k + 1),
            other => other,
        }
    }
}

/// Checks every container of the configuration whose dependency graph is
/// `g`, in order; the first problem found.
pub fn validate_config(g: &Vec<(String, Vec<String>)>) -> (r: Option<Result<(), String>>)
    ensures
        match check_all(graph_view(g@), 0) {
            None => r is None,
            Some(Ok(())) => r == Some(Ok::<(), String>(())),
            Some(Err(e)) => r matches Some(Err(m)) && m@ == e,
        },
{
    let mut i: usize = 0;
    while i < g.len()
        invariant
            i <= g@.len(),
            check_all(graph_view(g@), 0) == check_all(graph_view(g@), i as int),
        decreases g.len() - i,
    {
        assert(graph_view(g@)[i as int] == (g@[i as int].0@, g@[i as int].1@.map_values(|s: String| s@)));
        match validate_container(g, g[i].0.as_str(), &g[i].1) {
            Some(Ok(())) => {},
            other => return other,
        }
        i = i + 1;
    }
    Some(Ok(()))
}

} // verus!
