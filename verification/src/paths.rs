use vstd::prelude::*;
use crate::text::{chars_of, concat, concat3, opt_text, same_text};
use crate::tar::{components, path_components};
use crate::guard::{join_parts, join_components, parts_view};

verus! {

/// `base` joined with `p` as `PathBuf::push` joins them: an absolute `p`
/// replaces `base`; otherwise a separator goes between the two unless `base`
/// is empty or ends with one.
pub open spec fn join_path(base: Seq<char>, p: Seq<char>) -> Seq<char> {
    if p.len() > 0 && p[0] == '/' {
        p
    } else if base.len() == 0 || base.last() == '/' {
        base + p
    } else {
        base + "/"@ + p
    }
}

/// The path `base` joined with `p`.
pub fn path_join(base: &str, p: &str) -> (r: String)
    ensures
        r@ == join_path(base@, p@),
{
    proof {
        reveal_strlit("/");
    }
    let pv = chars_of(p);
    let bv = chars_of(base);
    if pv.len() > 0 && pv[0] == '/' {
        String::from_str(p)
    } else if bv.len() == 0 || bv[bv.len() - 1] == '/' {
        concat(base, p)
    } else {
        concat3(base, "/", p)
    }
}

/// The absolute path `s` relative to the root, as `strip_prefix("/")` gives
/// it (its components after the root, joined with `/`); `None` where `s` is
/// not absolute.
pub open spec fn rel_path(s: Seq<char>) -> Option<Seq<char>> {
    let c = components(s);
    if c.len() > 0 && c[0] == "/"@ {
        Some(join_parts(c.drop_first()))
    } else {
        None
    }
}

/// The absolute path `s` relative to the root.
pub fn strip_root(s: &str) -> (r: Option<String>)
    ensures
        opt_text(r) == rel_path(s@),
{
    let mut c = path_components(s);
    if c.len() > 0 && same_text(c[0].as_str(), "/") {
        let ghost cv = parts_view(c);
        c.remove(0);
        assert(parts_view(c) =~= cv.drop_first());
        Some(join_components(&c))
    } else {
        None
    }
}

} // verus!
