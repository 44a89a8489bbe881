use vstd::prelude::*;
use crate::text::opt_text;
use globset::{GlobBuilder, GlobSet, GlobSetBuilder};
use regex::Regex;

verus! {

/// The error of `globset` when a pattern does not compile.
#[verifier::external_type_specification]
#[verifier::external_body]
pub struct ExGlobError(globset::Error);

/// A set of glob patterns built by `globset`, matched all at once.
#[verifier::external_type_specification]
#[verifier::external_body]
pub struct ExGlobSet(globset::GlobSet);

/// The error of `regex` when a pattern does not compile.
#[verifier::external_type_specification]
#[verifier::external_body]
pub struct ExRegexError(regex::Error);

/// The error of `walkdir` when a directory cannot be read.
#[verifier::external_type_specification]
#[verifier::external_body]
pub struct ExWalkDirError(walkdir::Error);

/// Whether `GlobBuilder::build` accepts the pattern `glob` with the given
/// `literal_separator` setting.
pub uninterp spec fn glob_builds(glob: Seq<char>, literal_sep: bool) -> bool;

/// Whether the pattern `glob` (with the given `literal_separator` setting)
/// matches the path `path`, as a `GlobSet` holding it reports it among the
/// patterns that match.
pub uninterp spec fn glob_matches(glob: Seq<char>, literal_sep: bool, path: Seq<char>) -> bool;

/// Whether the patterns `globs` each build with `GlobBuilder` and
/// `GlobSetBuilder::build` then accepts them together.
pub uninterp spec fn globset_builds(globs: Seq<(Seq<char>, bool)>) -> bool;

/// The patterns (with their `literal_separator` settings) that the set
/// `set` was built from, in the order they were added.
pub uninterp spec fn globset_globs(set: GlobSet) -> Seq<(Seq<char>, bool)>;

/// Whether `Regex::new` accepts the pattern `pattern`.
pub uninterp spec fn regex_builds(pattern: Seq<char>) -> bool;

/// Whether the compiled regular expression `pattern` matches somewhere in
/// `text`.
pub uninterp spec fn regex_matches(pattern: Seq<char>, text: Seq<char>) -> bool;

/// The text of the group `group` of the first match of the regular
/// expression `pattern` in `text`, where it matches and the group takes
/// part in the match.
pub uninterp spec fn regex_group(pattern: Seq<char>, text: Seq<char>, group: nat) -> Option<Seq<char>>;

/// The texts of the successive non-overlapping matches of the regular
/// expression `pattern` in `text`, as `Regex::find_iter` yields them.
pub uninterp spec fn regex_found(pattern: Seq<char>, text: Seq<char>) -> Seq<Seq<char>>;

/// Builds a `globset::GlobSet` from the patterns `globs`, each built by
/// `GlobBuilder` with its `literal_separator` setting and added in order.
/// The contract claims that success is what `globset_builds` names, that it
/// implies that each pattern built, and that the set holds the patterns in
/// their order.
#[verifier::external_body]
pub(crate) fn build_glob_set(globs: &Vec<(String, bool)>) -> (r: Result<GlobSet, globset::Error>)
    ensures
        r is Ok <==> globset_builds(globs@.map_values(|g: (String, bool)| (g.0@, g.1))),
        r is Ok ==> forall|i: int|
            0 <= i < globs@.len() ==> glob_builds(#[trigger] globs@[i].0@, globs@[i].1),
        r matches Ok(set) ==> globset_globs(set) == globs@.map_values(|g: (String, bool)| (g.0@, g.1)),
{
    let mut set = GlobSetBuilder::new();
    for (glob, literal_sep) in globs.iter() {
        match GlobBuilder::new(glob).literal_separator(*literal_sep).build() {
            Ok(g) => { set.add(g); },
            Err(e) => { return Err(e); },
        }
    }
    set.build()
}

/// Calls `GlobSet::matches` on `path`: the sequence numbers of the
/// patterns of the set that match the path, in ascending order without
/// repeats (the set sorts and dedups them). The contract claims exactly
/// that, over `globset_globs` and `glob_matches`.
#[verifier::external_body]
pub(crate) fn glob_set_matches(set: &GlobSet, path: &str) -> (r: Vec<usize>)
    ensures
        forall|k: int| 0 <= k < r@.len() ==> #[trigger] r@[k] < globset_globs(*set).len(),
        forall|j: int, k: int| 0 <= j < k < r@.len() ==> #[trigger] r@[j] < #[trigger] r@[k],
        forall|i: int|
            0 <= i < globset_globs(*set).len() ==> (r@.contains(i as usize) <==> glob_matches(
                #[trigger] globset_globs(*set)[i].0,
                globset_globs(*set)[i].1,
                path@,
            )),
{
    set.matches(path)
}

/// Calls `Regex::new` and reports only whether it succeeded, which is what
/// `regex_builds` names.
#[verifier::external_body]
pub(crate) fn check_regex(pattern: &str) -> (r: Result<(), regex::Error>)
    ensures
        r is Ok <==> regex_builds(pattern@),
{
    match Regex::new(pattern) {
        Ok(_) => Ok(()),
        Err(e) => Err(e),
    }
}

/// Compiles `pattern` with `Regex::new` and calls `Regex::is_match` on
/// `text`. The contract claims the answer is `regex_matches` where the
/// pattern compiles, and false where it does not.
#[verifier::external_body]
pub(crate) fn regex_is_match(pattern: &str, text: &str) -> (r: bool)
    ensures
        r == (regex_builds(pattern@) && regex_matches(pattern@, text@)),
{
    match Regex::new(pattern) {
        Ok(re) => re.is_match(text),
        Err(_) => false,
    }
}

/// Compiles `pattern` with `Regex::new` and collects the texts that
/// `Regex::find_iter` yields on `text`. The contract claims the result is
/// `regex_found` where the pattern compiles.
#[verifier::external_body]
pub(crate) fn regex_find_all(pattern: &str, text: &str) -> (r: Vec<String>)
    ensures
        regex_builds(pattern@) ==> r@.map_values(|s: String| s@) == regex_found(pattern@, text@),
{
    match Regex::new(pattern) {
        Ok(re) => re.find_iter(text).map(|m| m.as_str().to_string()).collect(),
        Err(_) => Vec::new(),
    }
}

/// Compiles `pattern` with `Regex::new` and gives the text of the group
/// `group` of the first match that `Regex::captures` finds in `text`. The
/// contract claims the result is `regex_group` where the pattern compiles,
/// and none where it does not.
#[verifier::external_body]
pub(crate) fn regex_capture(pattern: &str, text: &str, group: usize) -> (r: Option<String>)
    ensures
        regex_builds(pattern@) ==> opt_text(r) == regex_group(pattern@, text@, group as nat),
        !regex_builds(pattern@) ==> r is None,
{
    match Regex::new(pattern) {
        Ok(re) => re.captures(text).and_then(|c| c.get(group)).map(|m| m.as_str().to_string()),
        Err(_) => None,
    }
}

/// The text that the `Display` form of `regex::Error` gives. Nothing is
/// claimed of it.
#[verifier::external_body]
pub(crate) fn regex_error_text(e: &regex::Error) -> String {
    format!("{}", e)
}

} // verus!
