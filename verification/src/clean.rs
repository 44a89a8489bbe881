use vstd::prelude::*;
use crate::assoc::text_seq;
use crate::paths::{join_path, path_join};
use crate::tar::{components, path_components};
use crate::text::{chars_of, same_text, str_starts_with, string_of, has_prefix};

verus! {

/// What `vagga _clean` removes.
#[derive(Debug, Clone, Copy, PartialEq, Eq, Structural)]
pub enum CleanMode {
    Help,
    Container,
    TmpFolders,
    OldContainers,
}

/// The error where no cleanup option is given.
pub fn help_error() -> (r: String)
    ensures
        r@ == "Use one of the cleanup options"@,
{
    String::from_str("Use one of the cleanup options")
}

/// The images of the containers `names` in the directory `local_vagga`.
pub fn container_dirs(local_vagga: &str, names: &Vec<String>) -> (r: Vec<String>)
    ensures
        r@.len() == names@.len(),
        forall|i: int|
            0 <= i < r@.len() ==> (#[trigger] r@[i])@ == join_path(
                join_path(local_vagga@, ".roots"@),
                names@[i]@,
            ),
{
    let roots = path_join(local_vagga, ".roots");
    let mut r: Vec<String> = Vec::new();
    let mut i: usize = 0;
    while i < names.len()
        invariant
            i <= names@.len(),
            roots@ == join_path(local_vagga@, ".roots"@),
            r@.len() == i,
            forall|k: int|
                0 <= k < i ==> (#[trigger] r@[k])@ == join_path(
                    join_path(local_vagga@, ".roots"@),
                    names@[k]@,
                ),
        decreases names.len() - i,
    {
        r.push(path_join(roots.as_str(), names[i].as_str()));
        i = i + 1;
    }
    r
}

/// The extension of the file name `n`: what follows its last `.`, where
/// the name does not start with that `.`.
pub open spec fn extension_of(n: Seq<char>) -> Option<Seq<char>> {
    if exists|k: int| 0 < k < n.len() && n[k] == '.' && forall|j: int| k < j < n.len() ==> n[j] != '.' {
        let k = choose|k: int| 0 < k < n.len() && n[k] == '.' && forall|j: int| k < j < n.len() ==> n[j] != '.';
        Some(n.skip(k + 1))
    } else {
        None
    }
}

/// Whether the file name `n` has the extension `tmp`.
pub fn is_tmp_folder(n: &str) -> (r: bool)
    ensures
        r == (extension_of(n@) == Some("tmp"@)),
{
    let v = chars_of(n);
    let mut k: usize = v.len();
    while k > 0
        invariant
            k <= v@.len(),
            v@ == n@,
            forall|j: int| k <= j < v@.len() ==> v@[j] != '.',
        decreases k,
    {
        if v[k - 1] == '.' {
            let dot = k - 1;
            if dot == 0 {
                assert(!exists|m: int| 0 < m < n@.len() && n@[m] == '.' && forall|j: int| m < j < n@.len() ==> n@[j] != '.') by {
                    if exists|m: int| 0 < m < n@.len() && n@[m] == '.' && forall|j: int| m < j < n@.len() ==> n@[j] != '.' {
                        let m = choose|m: int| 0 < m < n@.len() && n@[m] == '.' && forall|j: int| m < j < n@.len() ==> n@[j] != '.';
                        assert(n@[m] != '.');
                    }
                }
                return false;
            }
            let ext = string_of(&v, k, v.len());
            proof {
                let m = choose|m: int| 0 < m < n@.len() && n@[m] == '.' && forall|j: int| m < j < n@.len() ==> n@[j] != '.';
                if m != dot as int {
                    if m < dot as int {
                        assert(n@[dot as int] != '.');
                    } else {
                        assert(n@[m] != '.');
                    }
                }
                assert(ext@ =~= n@.skip(k as int));
            }
            return same_text(ext.as_str(), "tmp");
        }
        k = k - 1;
    }
    assert(!exists|m: int| 0 < m < n@.len() && n@[m] == '.' && forall|j: int| m < j < n@.len() ==> n@[j] != '.') by {
        if exists|m: int| 0 < m < n@.len() && n@[m] == '.' && forall|j: int| m < j < n@.len() ==> n@[j] != '.' {
            let m = choose|m: int| 0 < m < n@.len() && n@[m] == '.' && forall|j: int| m < j < n@.len() ==> n@[j] != '.';
            assert(v@[m] != '.');
        }
    }
    false
}

/// The container named by a link target of the project's directory: the
/// name of an image in `.roots`.
pub open spec fn root_of_link(target: Seq<char>) -> Option<Seq<char>> {
    let c = components(target);
    if c.len() == 2 && c[0] == ".roots"@ {
        Some(c[1])
    } else {
        None
    }
}

/// The image that the link target `target` names, if it names one.
pub fn alive_root(target: &str) -> (r: Option<String>)
    ensures
        match root_of_link(target@) {
            Some(n) => r matches Some(x) && x@ == n,
            None => r is None,
        },
{
    let c = path_components(target);
    if c.len() == 2 && same_text(c[0].as_str(), ".roots") {
        Some(c[1].clone())
    } else {
        None
    }
}

/// The images that the links `links` (each with its file name and its
/// target) keep, in order: those named by a link not starting with `.`.
pub open spec fn kept_roots(links: Seq<(String, String)>) -> Seq<Seq<char>>
    decreases links.len(),
{
    if links.len() == 0 {
        seq![]
    } else {
        let rest = kept_roots(links.drop_last());
        let l = links.last();
        match root_of_link(l.1@) {
            Some(n) => if !has_prefix(l.0@, "."@) {
                rest.push(n)
            } else {
                rest
            },
            None => rest,
        }
    }
}

/// The images of `roots` (the names in `.roots`) that no link keeps, in
/// order: what removing old containers removes.
pub fn old_roots(links: &Vec<(String, String)>, roots: &Vec<String>) -> (r: Vec<String>)
    ensures
        text_seq(r@) == text_seq(roots@).filter(|n: Seq<char>| !kept_roots(links@).contains(n)),
{
    let mut alive: Vec<String> = Vec::new();
    let mut i: usize = 0;
    assert(links@.take(0) =~= seq![]);
    while i < links.len()
        invariant
            i <= links@.len(),
            text_seq(alive@) == kept_roots(links@.take(i as int)),
        decreases links.len() - i,
    {
        assert(links@.take(i + 1).drop_last() =~= links@.take(i as int));
        assert(links@.take(i + 1).last() == links@[i as int]);
        if !str_starts_with(links[i].0.as_str(), ".") {
            match alive_root(links[i].1.as_str()) {
                Some(n) => {
                    let ghost a0 = text_seq(alive@);
                    let ghost nv = n@;
                    alive.push(n);
                    assert(text_seq(alive@) =~= a0.push(nv));
                },
                None => {},
            }
        }
        i = i + 1;
    }
    assert(links@.take(i as int) =~= links@);
    let ghost keep = kept_roots(links@);
    let ghost pred = |n: Seq<char>| !keep.contains(n);
    let mut r: Vec<String> = Vec::new();
    let mut k: usize = 0;
    assert(text_seq(roots@).take(0).filter(pred) =~= seq![]);
    while k < roots.len()
        invariant
            k <= roots@.len(),
            text_seq(alive@) == keep,
            keep == kept_roots(links@),
            pred == (|n: Seq<char>| !keep.contains(n)),
            text_seq(r@) == text_seq(roots@).take(k as int).filter(pred),
        decreases roots.len() - k,
    {
        let ghost t = text_seq(roots@);
        let mut found = false;
        let mut j: usize = 0;
        while j < alive.len()
            invariant
                j <= alive@.len(),
                k < roots@.len(),
                found == exists|q: int| 0 <= q < j && alive@[q]@ == roots@[k as int]@,
            decreases alive.len() - j,
        {
            if same_text(alive[j].as_str(), roots[k].as_str()) {
                found = true;
            }
            j = j + 1;
        }
        proof {
            if found {
                let q = choose|q: int| 0 <= q < alive@.len() && alive@[q]@ == roots@[k as int]@;
                assert(text_seq(alive@)[q] == roots@[k as int]@);
            } else {
                assert(!text_seq(alive@).contains(roots@[k as int]@)) by {
                    if text_seq(alive@).contains(roots@[k as int]@) {
                        let q = choose|q: int| 0 <= q < text_seq(alive@).len() && text_seq(alive@)[q] == roots@[k as int]@;
                        assert(alive@[q]@ == roots@[k as int]@);
                    }
                }
            }
            assert(t[k as int] == roots@[k as int]@);
        }
        let ghost r0 = text_seq(r@);
        if !found {
            let x = roots[k].clone();
            let ghost xv = x@;
            r.push(x);
            assert(text_seq(r@) =~= r0.push(xv));
        }
        proof {
            assert(t.take(k + 1) =~= t.take(k as int).push(t[k as int]));
            t.take(k as int).lemma_filter_push(t[k as int], pred);
        }
        k = k + 1;
    }
    assert(text_seq(roots@).take(k as int) =~= text_seq(roots@));
    r
}

} // verus!
