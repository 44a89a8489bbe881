use vstd::prelude::*;
use crate::text::{chars_of, chars_eq, has_prefix, has_suffix, push_char, push_chars, contains_char};
use crate::matchers::{
    glob_builds, glob_matches, glob_set_matches, globset_builds, globset_globs, build_glob_set, regex_builds,
    regex_matches, regex_is_match, check_regex,
};

verus! {

/// The errors of building or using a path filter.
#[derive(Debug)]
pub enum FilterError {
    Regex(regex::Error),
    Glob(globset::Error),
    Utf8(String),
    WalkDir(walkdir::Error),
}

/// One glob rule derived from a line of a gitignore-style rule list.
#[derive(Debug, PartialEq, Eq, Hash)]
pub struct Rule {
    pub orig: String,
    pub glob: String,
    pub is_ignore: bool,
    pub is_absolute: bool,
    pub is_dir: bool,
    pub is_exact: bool,
    pub is_intermediate: bool,
    pub literal_sep: bool,
}

/// A rule as a mathematical value.
pub struct RuleView {
    pub orig: Seq<char>,
    pub glob: Seq<char>,
    pub is_ignore: bool,
    pub is_absolute: bool,
    pub is_dir: bool,
    pub is_exact: bool,
    pub is_intermediate: bool,
    pub literal_sep: bool,
}

impl View for Rule {
    type V = RuleView;

    open spec fn view(&self) -> RuleView {
        RuleView {
            orig: self.orig@,
            glob: self.glob@,
            is_ignore: self.is_ignore,
            is_absolute: self.is_absolute,
            is_dir: self.is_dir,
            is_exact: self.is_exact,
            is_intermediate: self.is_intermediate,
            literal_sep: self.literal_sep,
        }
    }
}

/// The answer of a filter about one path.
#[derive(Debug, PartialEq)]
pub enum Match<'a> {
    Include(Option<&'a Rule>),
    Ignore(Option<&'a Rule>),
    NoMatch,
}

/// A `Match` as a mathematical value.
pub enum Verdict {
    Include(Option<RuleView>),
    Ignore(Option<RuleView>),
    Nothing,
}

impl<'a> View for Match<'a> {
    type V = Verdict;

    open spec fn view(&self) -> Verdict {
        match self {
            Match::Include(r) => Verdict::Include(
                match r {
                    Some(x) => Some(x@),
                    None => None,
                },
            ),
            Match::Ignore(r) => Verdict::Ignore(
                match r {
                    Some(x) => Some(x@),
                    None => None,
                },
            ),
            Match::NoMatch => Verdict::Nothing,
        }
    }
}

impl<'a> Match<'a> {
    /// Whether a rule includes the path.
    pub fn is_include(&self) -> (r: bool)
        ensures
            r == (self@ is Include),
    {
        if let Match::Include(_) = *self {
            true
        } else {
            false
        }
    }

    /// Whether a rule ignores the path.
    pub fn is_ignore(&self) -> (r: bool)
        ensures
            r == (self@ is Ignore),
    {
        if let Match::Ignore(_) = *self {
            true
        } else {
            false
        }
    }

    /// Whether no rule matches the path.
    pub fn is_none(&self) -> (r: bool)
        ensures
            r == (self@ is Nothing),
    {
        if let Match::NoMatch = *self {
            true
        } else {
            false
        }
    }
}

/// A filter of relative paths: either an ordered list of glob rules or a
/// pair of regular expressions (one for what to ignore, one for what to
/// include).
#[derive(Debug)]
pub enum PathFilter {
    Glob { globs: globset::GlobSet, rules: Vec<Rule>, skip_unknown_dirs: bool },
    Re { ignore_re: Option<String>, include_re: Option<String> },
}

/// The rules as mathematical values.
pub open spec fn views(rs: Seq<Rule>) -> Seq<RuleView> {
    rs.map_values(|r: Rule| r@)
}

/// A filter as a mathematical value.
pub enum FilterView {
    Glob(Seq<RuleView>, bool),
    Re(Option<Seq<char>>, Option<Seq<char>>),
}

impl View for PathFilter {
    type V = FilterView;

    open spec fn view(&self) -> FilterView {
        match self {
            PathFilter::Glob { rules, skip_unknown_dirs, .. } => FilterView::Glob(
                views(rules@),
                *skip_unknown_dirs,
            ),
            PathFilter::Re { ignore_re, include_re } => FilterView::Re(
                match ignore_re {
                    Some(s) => Some(s@),
                    None => None,
                },
                match include_re {
                    Some(s) => Some(s@),
                    None => None,
                },
            ),
        }
    }
}

/// The rule `rs[i]` matches `path` and may answer for it (a rule for
/// directories answers only for directories).
pub open spec fn eligible(rs: Seq<RuleView>, i: int, path: Seq<char>, is_dir: bool) -> bool {
    &&& 0 <= i < rs.len()
    &&& glob_builds(rs[i].glob, rs[i].literal_sep)
    &&& glob_matches(rs[i].glob, rs[i].literal_sep, path)
    &&& (is_dir || !rs[i].is_dir)
}

/// The rule `rs[ix]` decides about `path`: it is the last eligible exact
/// rule, or, where no eligible rule is exact, the last eligible rule.
pub open spec fn is_chosen(rs: Seq<RuleView>, ix: int, path: Seq<char>, is_dir: bool) -> bool {
    &&& eligible(rs, ix, path, is_dir)
    &&& forall|j: int| ix < j < rs.len() && eligible(rs, j, path, is_dir) ==> !rs[j].is_exact
    &&& !rs[ix].is_exact ==> forall|j: int|
        0 <= j < rs.len() && eligible(rs, j, path, is_dir) ==> !rs[j].is_exact && j <= ix
}

/// What a list of glob rules answers about `path`.
pub open spec fn glob_verdict(rs: Seq<RuleView>, path: Seq<char>, is_dir: bool) -> Verdict {
    if exists|ix: int| is_chosen(rs, ix, path, is_dir) {
        let ix = choose|ix: int| is_chosen(rs, ix, path, is_dir);
        if rs[ix].is_ignore {
            Verdict::Ignore(Some(rs[ix]))
        } else {
            Verdict::Include(Some(rs[ix]))
        }
    } else {
        Verdict::Nothing
    }
}

/// Whether the optional regular expression `re` matches `text`.
pub open spec fn re_hit(re: Option<Seq<char>>, text: Seq<char>) -> bool {
    match re {
        Some(p) => regex_builds(p) && regex_matches(p, text),
        None => false,
    }
}

/// What a filter answers about `path`.
pub open spec fn filter_verdict(f: FilterView, path: Seq<char>, is_dir: bool) -> Verdict {
    match f {
        FilterView::Glob(rs, _) => glob_verdict(rs, path, is_dir),
        FilterView::Re(ignore_re, include_re) => if re_hit(ignore_re, path) {
            Verdict::Ignore(None)
        } else if re_hit(include_re, path) {
            Verdict::Include(None)
        } else {
            Verdict::Nothing
        },
    }
}

/// The set `globs` holds the patterns of `rules` in order, and each of
/// them builds.
pub open spec fn set_of_rules(globs: globset::GlobSet, rules: Seq<Rule>) -> bool {
    &&& globset_globs(globs) == glob_pairs(views(rules))
    &&& forall|i: int|
        0 <= i < rules.len() ==> glob_builds(#[trigger] views(rules)[i].glob, views(rules)[i].literal_sep)
}

/// The rules `rs` between `lo` (included) and `hi` (excluded) that may
/// answer for `path` are not exact, and `matched`, where it is some, is the
/// last of them.
pub open spec fn scanned(rs: Seq<RuleView>, lo: int, path: Seq<char>, is_dir: bool, matched: Option<usize>) -> bool {
    &&& forall|k: int| lo <= k < rs.len() && eligible(rs, k, path, is_dir) ==> !rs[k].is_exact
    &&& match matched {
        None => forall|k: int| lo <= k < rs.len() ==> !eligible(rs, k, path, is_dir),
        Some(m) => lo <= m < rs.len() && eligible(rs, m as int, path, is_dir) && forall|k: int|
            lo <= k < rs.len() && eligible(rs, k, path, is_dir) ==> k <= m,
    }
}

/// The index of the rule of `rules` that decides about `path`, if any,
/// where `globs` is the set of their patterns: the patterns that match are
/// looked at from the last one down.
pub fn chosen_rule(globs: &globset::GlobSet, rules: &Vec<Rule>, path: &str, is_dir: bool) -> (r: Option<usize>)
    requires
        set_of_rules(*globs, rules@),
    ensures
        match r {
            Some(ix) => is_chosen(views(rules@), ix as int, path@, is_dir),
            None => forall|ix: int| !#[trigger] is_chosen(views(rules@), ix, path@, is_dir),
        },
{
    let ghost rs = views(rules@);
    let hits = glob_set_matches(globs, path);
    let nrules = rules.len();
    let ghost n = rs.len() as int;
    proof {
        assert(globset_globs(*globs) == glob_pairs(rs));
        assert(globset_globs(*globs).len() == n);
        assert forall|k: int| 0 <= k < n && eligible(rs, k, path@, is_dir) implies hits@.contains(
            k as usize,
        ) by {
            assert(glob_pairs(rs)[k] == (rs[k].glob, rs[k].literal_sep));
            assert(globset_globs(*globs)[k].0 == rs[k].glob);
        }
    }
    let mut matched: Option<usize> = None;
    let mut p = hits.len();
    proof {
        if p > 0 {
            assert forall|k: int| hits@[p - 1] + 1 <= k < n implies !eligible(rs, k, path@, is_dir) by {
                if eligible(rs, k, path@, is_dir) {
                    assert(k < nrules);
                    assert(hits@.contains(k as usize));
                    let q = choose|q: int| 0 <= q < hits@.len() && hits@[q] == k as usize;
                    assert(hits@[q] == k);
                    if q < p - 1 {
                        assert(hits@[q] < hits@[p - 1]);
                    }
                }
            }
        } else {
            assert forall|k: int| 0 <= k < n implies !eligible(rs, k, path@, is_dir) by {
                if eligible(rs, k, path@, is_dir) {
                    assert(hits@.contains(k as usize));
                }
            }
        }
    }
    while p > 0
        invariant
            rs == views(rules@),
            n == rs.len(),
            set_of_rules(*globs, rules@),
            globset_globs(*globs) == glob_pairs(rs),
            forall|i: int|
                0 <= i < n ==> (hits@.contains(i as usize) <==> glob_matches(
                    #[trigger] globset_globs(*globs)[i].0,
                    globset_globs(*globs)[i].1,
                    path@,
                )),
            p <= hits@.len(),
            forall|k: int| 0 <= k < hits@.len() ==> #[trigger] hits@[k] < n,
            forall|j: int, k: int| 0 <= j < k < hits@.len() ==> #[trigger] hits@[j] < #[trigger] hits@[k],
            forall|k: int| 0 <= k < n && eligible(rs, k, path@, is_dir) ==> hits@.contains(k as usize),
            scanned(rs, if p == 0 { 0 } else { hits@[p - 1] + 1 }, path@, is_dir, matched),
        decreases p,
    {
        let ix = hits[p - 1];
        let ghost lo_new: int = if p == 1 { 0 } else { hits@[p - 2] + 1 };
        proof {
            assert forall|k: int| lo_new <= k < ix && 0 <= k implies !eligible(rs, k, path@, is_dir) by {
                if eligible(rs, k, path@, is_dir) {
                    assert(hits@.contains(k as usize));
                    let q = choose|q: int| 0 <= q < hits@.len() && hits@[q] == k as usize;
                    if q < p - 1 {
                        if q < p - 2 {
                            assert(hits@[q] < hits@[p - 2]);
                        }
                    } else if q > p - 1 {
                        assert(hits@[p - 1] < hits@[q]);
                    }
                }
            }
        }
        let rule = &rules[ix];
        assert(rs[ix as int] == rule@);
        assert(glob_pairs(rs)[ix as int] == (rs[ix as int].glob, rs[ix as int].literal_sep));
        assert(hits@[p - 1] == ix);
        assert(hits@.contains(ix));
        assert(globset_globs(*globs)[ix as int].0 == rs[ix as int].glob);
        assert(glob_builds(views(rules@)[ix as int].glob, views(rules@)[ix as int].literal_sep));
        assert(glob_matches(rs[ix as int].glob, rs[ix as int].literal_sep, path@));
        if is_dir || !rule.is_dir {
            if rule.is_exact {
                return Some(ix);
            }
            if matched.is_none() {
                matched = Some(ix);
            }
        }
        p = p - 1;
    }
    matched
}

impl PathFilter {
    /// A filter by regular expressions: paths that `ignore_re` matches are
    /// ignored, other paths that `include_re` matches are included.
    pub fn regex(ignore_re: Option<&str>, include_re: Option<&str>) -> (r: Result<
        PathFilter,
        FilterError,
    >)
        ensures
            r is Ok <==> (ignore_re matches Some(p) ==> regex_builds(p@)) && (include_re matches Some(p)
                ==> regex_builds(p@)),
            r is Err ==> r->Err_0 is Regex,
            r matches Ok(f) ==> f@ == FilterView::Re(
                match ignore_re {
                    Some(p) => Some(p@),
                    None => None,
                },
                match include_re {
                    Some(p) => Some(p@),
                    None => None,
                },
            ) && f.wf(),
    {
        let ignore_pat = match ignore_re {
            Some(p) => {
                match check_regex(p) {
                    Ok(()) => Some(String::from_str(p)),
                    Err(e) => {
                        return Err(FilterError::Regex(e));
                    },
                }
            },
            None => None,
        };
        let include_pat = match include_re {
            Some(p) => {
                match check_regex(p) {
                    Ok(()) => Some(String::from_str(p)),
                    Err(e) => {
                        return Err(FilterError::Regex(e));
                    },
                }
            },
            None => None,
        };
        Ok(PathFilter::Re { ignore_re: ignore_pat, include_re: include_pat })
    }

    /// A glob filter's set holds the patterns of its rules, each of which
    /// builds; a filter by regular expressions needs nothing.
    pub open spec fn wf(&self) -> bool {
        match self {
            PathFilter::Glob { globs, rules, .. } => set_of_rules(*globs, rules@),
            PathFilter::Re { .. } => true,
        }
    }

    /// What the filter answers about `path` (a directory where `is_dir`).
    pub fn matched<'a>(&'a self, path: &str, is_dir: bool) -> (r: Match<'a>)
        requires
            self.wf(),
        ensures
            r@ == filter_verdict(self@, path@, is_dir),
    {
        match self {
            PathFilter::Glob { globs, rules, .. } => {
                let ghost rs = views(rules@);
                match chosen_rule(globs, rules, path, is_dir) {
                    Some(ix) => {
                        proof {
                            assert forall|k: int| is_chosen(rs, k, path@, is_dir) implies k
                                == ix as int by {
                                if k < ix {
                                    assert(!rs[k].is_exact);
                                } else if k > ix {
                                    assert(!rs[ix as int].is_exact);
                                }
                            }
                            assert(is_chosen(rs, ix as int, path@, is_dir));
                        }
                        let rule = &rules[ix];
                        assert(rs[ix as int] == rule@);
                        if rule.is_ignore {
                            Match::Ignore(Some(rule))
                        } else {
                            Match::Include(Some(rule))
                        }
                    },
                    None => Match::NoMatch,
                }
            },
            PathFilter::Re { ignore_re, include_re } => {
                if let Some(p) = ignore_re {
                    if regex_is_match(p.as_str(), path) {
                        return Match::Ignore(None);
                    }
                }
                if let Some(p) = include_re {
                    if regex_is_match(p.as_str(), path) {
                        return Match::Include(None);
                    }
                }
                Match::NoMatch
            },
        }
    }
}

/// The rule line without its leading `!`.
pub open spec fn after_bang(s: Seq<char>) -> Seq<char> {
    if s.len() > 0 && s[0] == '!' {
        s.drop_first()
    } else {
        s
    }
}

/// A line that starts with `!` ignores what it matches.
pub open spec fn rule_is_ignore(s: Seq<char>) -> bool {
    s.len() > 0 && s[0] == '!'
}

/// The pattern of a rule line: without `!`, and without one escaping `\`.
pub open spec fn rule_text(s: Seq<char>) -> Seq<char> {
    let t = after_bang(s);
    if t.len() > 0 && t[0] == '\\' {
        t.drop_first()
    } else {
        t
    }
}

/// A pattern that ends with `/` names directories.
pub open spec fn rule_is_dir(s: Seq<char>) -> bool {
    rule_text(s).len() > 0 && rule_text(s).last() == '/'
}

/// A pattern that starts with `/` is anchored at the root.
pub open spec fn rule_is_absolute(s: Seq<char>) -> bool {
    rule_text(s).len() > 0 && rule_text(s)[0] == '/'
}

/// A pattern with a `/` in it: then `*` does not cross directories.
pub open spec fn rule_has_slash(s: Seq<char>) -> bool {
    rule_text(s).contains('/')
}

/// The pattern without one trailing and then one leading `/`.
pub open spec fn rule_core(s: Seq<char>) -> Seq<char> {
    let t = rule_text(s);
    let t3 = if rule_is_dir(s) {
        t.drop_last()
    } else {
        t
    };
    if t3.len() > 0 && t3[0] == '/' {
        t3.drop_first()
    } else {
        t3
    }
}

/// The text `**/`.
pub open spec fn any_dirs() -> Seq<char> {
    seq!['*', '*', '/']
}

/// What is put before every glob of a rule: `**/` for a pattern that is
/// neither anchored nor already starts with `**/`.
pub open spec fn glob_prefix(s: Seq<char>) -> Seq<char> {
    if !rule_is_absolute(s) && !has_prefix(rule_core(s), any_dirs()) {
        any_dirs()
    } else {
        seq![]
    }
}

/// `t` without its leading `/` characters.
pub open spec fn strip_slashes(t: Seq<char>) -> Seq<char>
    decreases t.len(),
{
    if t.len() > 0 && t[0] == '/' {
        strip_slashes(t.drop_first())
    } else {
        t
    }
}

/// The ends, from `e` on, of the `/`-separated parts of `t`: every position
/// that holds a `/`, and the end of `t`.
pub open spec fn part_ends(t: Seq<char>, e: int) -> Seq<int>
    decreases t.len() + 1 - e,
{
    if e < 1 || e > t.len() {
        seq![]
    } else if e == t.len() || t[e] == '/' {
        seq![e] + part_ends(t, e + 1)
    } else {
        part_ends(t, e + 1)
    }
}

/// A rule derived from the line `s`.
pub open spec fn make_rule(
    s: Seq<char>,
    glob: Seq<char>,
    is_dir: bool,
    is_exact: bool,
    is_intermediate: bool,
) -> RuleView {
    RuleView {
        orig: s,
        glob: glob,
        is_ignore: rule_is_ignore(s),
        is_absolute: rule_is_absolute(s),
        is_dir: is_dir,
        is_exact: is_exact,
        is_intermediate: is_intermediate,
        literal_sep: rule_has_slash(s),
    }
}

/// The exact rule for the first `e` characters of the pattern (past its
/// leading slashes): a directory on the way, unless it is the whole pattern.
pub open spec fn step_rule(s: Seq<char>, e: int) -> RuleView {
    let t = strip_slashes(rule_core(s));
    let last = e == rule_core(s).len();
    make_rule(s, glob_prefix(s) + t.take(e), !last || rule_is_dir(s), true, !last)
}

/// The exact rules of the line `s`: one for an ignoring line, else one for
/// each directory on the way and one for the whole pattern.
pub open spec fn head_rules(s: Seq<char>) -> Seq<RuleView> {
    if rule_is_ignore(s) {
        seq![make_rule(s, glob_prefix(s) + rule_core(s), rule_is_dir(s), true, false)]
    } else {
        part_ends(strip_slashes(rule_core(s)), 1).map_values(|e: int| step_rule(s, e))
    }
}

/// The rule of the line `s` for what lies below what it names.
pub open spec fn tail_rules(s: Seq<char>) -> Seq<RuleView> {
    let core = rule_core(s);
    if rule_is_dir(s) {
        let glob = if core.len() == 0 {
            seq!['*', '*', '/', '*']
        } else {
            glob_prefix(s) + core + seq!['/', '*', '*', '/', '*']
        };
        seq![make_rule(s, glob, false, false, false)]
    } else if !has_suffix(core, seq!['/', '*', '*']) {
        seq![make_rule(s, glob_prefix(s) + core + seq!['/', '*', '*'], false, false, false)]
    } else {
        seq![]
    }
}

/// All the rules that the line `s` gives, in order, before duplicates are
/// dropped.
pub open spec fn candidate_rules(s: Seq<char>) -> Seq<RuleView> {
    head_rules(s) + tail_rules(s)
}

/// The rules of `cands` that are neither in `seen` nor earlier in `cands`.
pub open spec fn fresh_rules(cands: Seq<RuleView>, seen: Seq<RuleView>) -> Seq<RuleView>
    decreases cands.len(),
{
    if cands.len() == 0 {
        seq![]
    } else {
        let f = fresh_rules(cands.drop_last(), seen);
        if (seen + f).contains(cands.last()) {
            f
        } else {
            f.push(cands.last())
        }
    }
}

/// The rules that the lines `strs` give, where a rule that a later line
/// also gives is kept only for the later line.
pub open spec fn cooked_rules(strs: Seq<Seq<char>>) -> Seq<RuleView>
    decreases strs.len(),
{
    if strs.len() == 0 {
        seq![]
    } else {
        fresh_rules(candidate_rules(strs[0]), seen_rules(strs.drop_first())) + cooked_rules(
            strs.drop_first(),
        )
    }
}

/// The rules kept for the lines `strs`, in the order they were kept
/// (the last line first).
pub open spec fn seen_rules(strs: Seq<Seq<char>>) -> Seq<RuleView>
    decreases strs.len(),
{
    if strs.len() == 0 {
        seq![]
    } else {
        let later = seen_rules(strs.drop_first());
        later + fresh_rules(candidate_rules(strs[0]), later)
    }
}

/// Whether unknown directories may be skipped: no kept rule includes
/// anything relative.
pub open spec fn skips_unknown_dirs(rs: Seq<RuleView>) -> bool {
    forall|i: int| 0 <= i < rs.len() ==> rs[i].is_absolute || rs[i].is_ignore
}

/// The glob patterns of `rs` with their `literal_separator` settings.
pub open spec fn glob_pairs(rs: Seq<RuleView>) -> Seq<(Seq<char>, bool)> {
    rs.map_values(|r: RuleView| (r.glob, r.literal_sep))
}

/// A copy of the text `s`.
fn copy_string(s: &String) -> (r: String)
    ensures
        r@ == s@,
{
    s.clone()
}

impl Rule {
    /// A copy of the rule.
    pub fn duplicate(&self) -> (r: Rule)
        ensures
            r@ == self@,
    {
        Rule {
            orig: copy_string(&self.orig),
            glob: copy_string(&self.glob),
            is_ignore: self.is_ignore,
            is_absolute: self.is_absolute,
            is_dir: self.is_dir,
            is_exact: self.is_exact,
            is_intermediate: self.is_intermediate,
            literal_sep: self.literal_sep,
        }
    }

    /// Whether two rules are equal in all their fields.
    pub fn same_as(&self, other: &Rule) -> (r: bool)
        ensures
            r == (self@ == other@),
    {
        if self.is_ignore != other.is_ignore || self.is_absolute != other.is_absolute
            || self.is_dir != other.is_dir || self.is_exact != other.is_exact
            || self.is_intermediate != other.is_intermediate || self.literal_sep
            != other.literal_sep {
            return false;
        }
        let a = chars_of(self.orig.as_str());
        let b = chars_of(other.orig.as_str());
        if !chars_eq(&a, &b) {
            return false;
        }
        let c = chars_of(self.glob.as_str());
        let d = chars_of(other.glob.as_str());
        chars_eq(&c, &d)
    }
}

/// Adds `rule` to `rules` and to `unique_rules`, unless an equal rule is
/// already in `unique_rules`.
fn maybe_add_rule(rule: Rule, rules: &mut Vec<Rule>, unique_rules: &mut Vec<Rule>)
    ensures
        views(old(unique_rules)@).contains(rule@) ==> final(rules)@ == old(rules)@,
        views(old(unique_rules)@).contains(rule@) ==> final(unique_rules)@ == old(unique_rules)@,
        !views(old(unique_rules)@).contains(rule@) ==> views(final(rules)@) == views(old(rules)@).push(rule@),
        !views(old(unique_rules)@).contains(rule@) ==> views(final(unique_rules)@) == views(old(unique_rules)@).push(rule@),
{
    let mut i: usize = 0;
    while i < unique_rules.len()
        invariant
            i <= unique_rules@.len(),
            forall|k: int| 0 <= k < i ==> unique_rules@[k]@ != rule@,
        decreases unique_rules.len() - i,
    {
        if unique_rules[i].same_as(&rule) {
            assert(views(unique_rules@)[i as int] == rule@);
            return;
        }
        i = i + 1;
    }
    assert(!views(unique_rules@).contains(rule@));
    let copy = rule.duplicate();
    rules.push(rule);
    unique_rules.push(copy);
    assert(views(rules@) =~= views(old(rules)@).push(rule@));
    assert(views(unique_rules@) =~= views(old(unique_rules)@).push(rule@));
}

/// A rule line taken apart: the line's characters, the bounds of its core
/// pattern, and its flags.
struct RuleParts {
    chars: Vec<char>,
    from: usize,
    to: usize,
    is_ignore: bool,
    is_dir: bool,
    is_absolute: bool,
    has_slash: bool,
}

/// Takes the rule line `rule` apart.
fn split_rule(rule: &str) -> (r: RuleParts)
    ensures
        parts_of(r, rule@),
{
    let v = chars_of(rule);
    let ghost s = rule@;
    let is_ignore = v.len() > 0 && v[0] == '!';
    let mut a: usize = if is_ignore {
        1
    } else {
        0
    };
    assert(after_bang(s) =~= v@.subrange(a as int, v@.len() as int));
    if a < v.len() && v[a] == '\\' {
        a = a + 1;
    }
    assert(rule_text(s) =~= v@.subrange(a as int, v@.len() as int));
    let has_slash = contains_char(&v, a, v.len(), '/');
    let mut b = v.len();
    let is_dir = b > a && v[b - 1] == '/';
    let is_absolute = b > a && v[a] == '/';
    if is_dir {
        b = b - 1;
    }
    assert(v@.subrange(a as int, b as int) =~= if rule_is_dir(s) {
        rule_text(s).drop_last()
    } else {
        rule_text(s)
    });
    if b > a && v[a] == '/' {
        a = a + 1;
    }
    assert(v@.subrange(a as int, b as int) =~= rule_core(s));
    RuleParts { chars: v, from: a, to: b, is_ignore, is_dir, is_absolute, has_slash }
}

/// The text `**/` (where `prefix`), then `v[from..to]`, then `suffix`.
fn glob_text(prefix: bool, v: &Vec<char>, from: usize, to: usize, suffix: &Vec<char>) -> (r:
    String)
    requires
        from <= to <= v@.len(),
    ensures
        r@ == (if prefix {
            any_dirs()
        } else {
            seq![]
        }) + v@.subrange(from as int, to as int) + suffix@,
{
    let mut g = String::new();
    if prefix {
        push_char(&mut g, '*');
        push_char(&mut g, '*');
        push_char(&mut g, '/');
    }
    let ghost start = g@;
    push_chars(&mut g, v, from, to);
    let ghost mid = g@;
    push_chars(&mut g, suffix, 0, suffix.len());
    assert(suffix@.subrange(0, suffix@.len() as int) =~= suffix@);
    assert(start =~= if prefix {
        any_dirs()
    } else {
        seq![]
    });
    g
}

/// Adds the candidate `rule` as `maybe_add_rule` does, where the earlier
/// candidates `emitted` were added the same way.
fn add_candidate(
    rule: Rule,
    cooked_rules: &mut Vec<Rule>,
    unique_rules: &mut Vec<Rule>,
    Ghost(emitted): Ghost<Seq<RuleView>>,
    Ghost(cooked0): Ghost<Seq<RuleView>>,
    Ghost(seen0): Ghost<Seq<RuleView>>,
)
    requires
        views(old(cooked_rules)@) == cooked0 + fresh_rules(emitted, seen0),
        views(old(unique_rules)@) == seen0 + fresh_rules(emitted, seen0),
    ensures
        views(final(cooked_rules)@) == cooked0 + fresh_rules(emitted.push(rule@), seen0),
        views(final(unique_rules)@) == seen0 + fresh_rules(emitted.push(rule@), seen0),
{
    let ghost c = rule@;
    assert(emitted.push(c).drop_last() =~= emitted);
    maybe_add_rule(rule, cooked_rules, unique_rules);
    proof {
        let f = fresh_rules(emitted, seen0);
        if !(seen0 + f).contains(c) {
            assert(cooked0 + f.push(c) =~= (cooked0 + f).push(c));
            assert(seen0 + f.push(c) =~= (seen0 + f).push(c));
        }
    }
}

/// `p` is the line `s` taken apart.
spec fn parts_of(p: RuleParts, s: Seq<char>) -> bool {
    &&& p.chars@ == s
    &&& p.from <= p.to <= p.chars@.len()
    &&& p.chars@.subrange(p.from as int, p.to as int) == rule_core(s)
    &&& p.is_ignore == rule_is_ignore(s)
    &&& p.is_dir == rule_is_dir(s)
    &&& p.is_absolute == rule_is_absolute(s)
    &&& p.has_slash == rule_has_slash(s)
}

/// Whether the globs of the line taken apart in `p` get the prefix `**/`.
fn needs_prefix(p: &RuleParts, Ghost(s): Ghost<Seq<char>>) -> (r: bool)
    requires
        parts_of(*p, s),
    ensures
        r == (glob_prefix(s) == any_dirs()),
        !r ==> glob_prefix(s) == Seq::<char>::empty(),
{
    let v = &p.chars;
    let from = p.from;
    let to = p.to;
    let ghost core = rule_core(s);
    let starts_any = to - from >= 3 && v[from] == '*' && v[from + 1] == '*' && v[from + 2] == '/';
    assert(starts_any == has_prefix(core, any_dirs())) by {
        if to - from >= 3 {
            assert(core.subrange(0, 3) =~= seq![v@[from as int], v@[from + 1], v@[from + 2]]);
        }
    }
    assert(any_dirs() != Seq::<char>::empty()) by {
        assert(any_dirs().len() == 3);
    }
    !p.is_absolute && !starts_any
}

/// Adds the one exact rule of an ignoring line.
fn add_ignore_head(
    rule: &str,
    p: &RuleParts,
    prefix: bool,
    cooked_rules: &mut Vec<Rule>,
    unique_rules: &mut Vec<Rule>,
)
    requires
        parts_of(*p, rule@),
        rule_is_ignore(rule@),
        glob_prefix(rule@) == (if prefix {
            any_dirs()
        } else {
            seq![]
        }),
    ensures
        views(final(cooked_rules)@) == views(old(cooked_rules)@) + fresh_rules(
            head_rules(rule@),
            views(old(unique_rules)@),
        ),
        views(final(unique_rules)@) == views(old(unique_rules)@) + fresh_rules(
            head_rules(rule@),
            views(old(unique_rules)@),
        ),
{
    let ghost s = rule@;
    let ghost cooked0 = views(cooked_rules@);
    let ghost seen0 = views(unique_rules@);
    let empty: Vec<char> = Vec::new();
    let glob = glob_text(prefix, &p.chars, p.from, p.to, &empty);
    let r = Rule {
        orig: String::from_str(rule),
        glob: glob,
        is_ignore: true,
        is_absolute: p.is_absolute,
        is_dir: p.is_dir,
        is_exact: true,
        is_intermediate: false,
        literal_sep: p.has_slash,
    };
    assert(glob@ =~= glob_prefix(s) + rule_core(s));
    assert(r@ == make_rule(s, glob_prefix(s) + rule_core(s), rule_is_dir(s), true, false));
    assert(fresh_rules(Seq::<RuleView>::empty(), seen0) =~= seq![]);
    assert(cooked0 + seq![] =~= cooked0);
    assert(seen0 + seq![] =~= seen0);
    let ghost none: Seq<RuleView> = seq![];
    add_candidate(r, cooked_rules, unique_rules, Ghost(none), Ghost(cooked0), Ghost(seen0));
    assert(none.push(r@) =~= head_rules(s));
}

/// The position just past the leading `/` characters of `v[from..to]`.
fn skip_slashes(v: &Vec<char>, from: usize, to: usize) -> (r: usize)
    requires
        from <= to <= v@.len(),
    ensures
        from <= r <= to,
        strip_slashes(v@.subrange(from as int, to as int)) == v@.subrange(r as int, to as int),
{
    let mut ts = from;
    while ts < to && v[ts] == '/'
        invariant
            from <= ts <= to <= v@.len(),
            strip_slashes(v@.subrange(from as int, to as int)) == strip_slashes(
                v@.subrange(ts as int, to as int),
            ),
        decreases to - ts,
    {
        assert(v@.subrange(ts as int, to as int).drop_first() =~= v@.subrange(ts + 1, to as int));
        ts = ts + 1;
    }
    ts
}

/// The exact rule of a including line for the first `e` characters of its
/// pattern past the leading slashes, which start at `ts`.
fn step_rule_at(rule: &str, p: &RuleParts, prefix: bool, ts: usize, e: usize) -> (r: Rule)
    requires
        parts_of(*p, rule@),
        p.from <= ts <= p.to,
        1 <= e <= p.to - ts,
        strip_slashes(rule_core(rule@)) == p.chars@.subrange(ts as int, p.to as int),
        glob_prefix(rule@) == (if prefix {
            any_dirs()
        } else {
            seq![]
        }),
        !rule_is_ignore(rule@),
    ensures
        r@ == step_rule(rule@, e as int),
{
    let ghost s = rule@;
    let ghost t = p.chars@.subrange(ts as int, p.to as int);
    let empty: Vec<char> = Vec::new();
    let glob = glob_text(prefix, &p.chars, ts, ts + e, &empty);
    let last = e == p.to - p.from;
    assert(rule_core(s).len() == p.to - p.from);
    assert(t.take(e as int) =~= p.chars@.subrange(ts as int, ts + e));
    assert(glob@ =~= glob_prefix(s) + t.take(e as int));
    Rule {
        orig: String::from_str(rule),
        glob: glob,
        is_ignore: false,
        is_absolute: p.is_absolute,
        is_dir: !last || p.is_dir,
        is_exact: true,
        is_intermediate: !last,
        literal_sep: p.has_slash,
    }
}

/// Adds the exact rules of an including line: one for each directory on the
/// way and one for the whole pattern.
fn add_step_heads(
    rule: &str,
    p: &RuleParts,
    prefix: bool,
    cooked_rules: &mut Vec<Rule>,
    unique_rules: &mut Vec<Rule>,
)
    requires
        parts_of(*p, rule@),
        !rule_is_ignore(rule@),
        glob_prefix(rule@) == (if prefix {
            any_dirs()
        } else {
            seq![]
        }),
    ensures
        views(final(cooked_rules)@) == views(old(cooked_rules)@) + fresh_rules(
            head_rules(rule@),
            views(old(unique_rules)@),
        ),
        views(final(unique_rules)@) == views(old(unique_rules)@) + fresh_rules(
            head_rules(rule@),
            views(old(unique_rules)@),
        ),
{
    let ghost s = rule@;
    let ghost cooked0 = views(cooked_rules@);
    let ghost seen0 = views(unique_rules@);
    let v = &p.chars;
    let to = p.to;
    let ts = skip_slashes(v, p.from, to);
    let ghost t = v@.subrange(ts as int, to as int);
    let ghost all = part_ends(t, 1).map_values(|x: int| step_rule(s, x));
    let tl = to - ts;
    let ghost mut emitted: Seq<RuleView> = seq![];
    assert(fresh_rules(emitted, seen0) =~= seq![]);
    assert(cooked0 + seq![] =~= cooked0);
    assert(seen0 + seq![] =~= seen0);
    assert(emitted + all =~= all);
    let mut k: usize = 0;
    while k < tl
        invariant
            parts_of(*p, s),
            s == rule@,
            v == &p.chars,
            to == p.to,
            p.from <= ts <= to,
            tl == to - ts,
            k <= tl,
            t == v@.subrange(ts as int, to as int),
            strip_slashes(rule_core(s)) == t,
            glob_prefix(s) == (if prefix {
                any_dirs()
            } else {
                seq![]
            }),
            !rule_is_ignore(s),
            all == part_ends(t, 1).map_values(|x: int| step_rule(s, x)),
            emitted + part_ends(t, k + 1).map_values(|x: int| step_rule(s, x)) == all,
            views(cooked_rules@) == cooked0 + fresh_rules(emitted, seen0),
            views(unique_rules@) == seen0 + fresh_rules(emitted, seen0),
        decreases tl - k,
    {
        let e = k + 1;
        let ghost rest = part_ends(t, e as int + 1).map_values(|x: int| step_rule(s, x));
        if e == tl || v[ts + e] == '/' {
            let r = step_rule_at(rule, p, prefix, ts, e);
            add_candidate(r, cooked_rules, unique_rules, Ghost(emitted), Ghost(cooked0), Ghost(seen0));
            assert(part_ends(t, e as int) == seq![e as int] + part_ends(t, e as int + 1));
            assert(part_ends(t, e as int).map_values(|x: int| step_rule(s, x)) =~= seq![
                step_rule(s, e as int),
            ] + rest);
            proof {
                assert(emitted.push(r@) + rest =~= emitted + (seq![step_rule(s, e as int)] + rest));
                emitted = emitted.push(r@);
            }
        } else {
            assert(part_ends(t, e as int) == part_ends(t, e as int + 1));
        }
        k = k + 1;
    }
    assert(part_ends(t, k + 1) =~= seq![]);
    assert(emitted + seq![] =~= emitted);
    assert(all == head_rules(s));
}

/// The rule of the line taken apart in `p` for what lies below what it
/// names, if the line gives one.
#[verifier::spinoff_prover]
fn tail_rule_of(rule: &str, p: &RuleParts, prefix: bool) -> (r: Option<Rule>)
    requires
        parts_of(*p, rule@),
        glob_prefix(rule@) == (if prefix {
            any_dirs()
        } else {
            seq![]
        }),
    ensures
        match r {
            Some(x) => tail_rules(rule@) == seq![x@],
            None => tail_rules(rule@) == Seq::<RuleView>::empty(),
        },
{
    let ghost s = rule@;
    let ghost core = rule_core(s);
    let v = &p.chars;
    let from = p.from;
    let to = p.to;
    let glob = if p.is_dir {
        if to == from {
            let mut g = String::new();
            push_char(&mut g, '*');
            push_char(&mut g, '*');
            push_char(&mut g, '/');
            push_char(&mut g, '*');
            assert(g@ =~= seq!['*', '*', '/', '*']);
            g
        } else {
            let suffix = vec!['/', '*', '*', '/', '*'];
            let g = glob_text(prefix, v, from, to, &suffix);
            assert(g@ =~= glob_prefix(s) + core + seq!['/', '*', '*', '/', '*']);
            g
        }
    } else {
        let ends_any = to - from >= 3 && v[to - 3] == '/' && v[to - 2] == '*' && v[to - 1] == '*';
        assert(ends_any == has_suffix(core, seq!['/', '*', '*'])) by {
            if to - from >= 3 {
                assert(core.subrange(core.len() - 3, core.len() as int) =~= seq![
                    v@[to - 3],
                    v@[to - 2],
                    v@[to - 1],
                ]);
            }
        }
        if ends_any {
            assert(tail_rules(s) =~= seq![]);
            return None;
        }
        let suffix = vec!['/', '*', '*'];
        let g = glob_text(prefix, v, from, to, &suffix);
        assert(g@ =~= glob_prefix(s) + core + seq!['/', '*', '*']);
        g
    };
    let r = Rule {
        orig: String::from_str(rule),
        glob: glob,
        is_ignore: p.is_ignore,
        is_absolute: p.is_absolute,
        is_dir: false,
        is_exact: false,
        is_intermediate: false,
        literal_sep: p.has_slash,
    };
    assert(seq![r@] =~= tail_rules(s));
    Some(r)
}

/// Adds the rules that the line `rule` gives to `cooked_rules`, dropping
/// those already in `unique_rules`, to which it adds the others.
pub fn prepare_rule(rule: &str, cooked_rules: &mut Vec<Rule>, unique_rules: &mut Vec<Rule>)
    ensures
        views(final(cooked_rules)@) == views(old(cooked_rules)@) + fresh_rules(
            candidate_rules(rule@),
            views(old(unique_rules)@),
        ),
        views(final(unique_rules)@) == views(old(unique_rules)@) + fresh_rules(
            candidate_rules(rule@),
            views(old(unique_rules)@),
        ),
{
    let ghost s = rule@;
    let ghost cooked0 = views(cooked_rules@);
    let ghost seen0 = views(unique_rules@);
    let parts = split_rule(rule);
    let prefix = needs_prefix(&parts, Ghost(s));
    assert(glob_prefix(s) == (if prefix {
        any_dirs()
    } else {
        seq![]
    }));
    if parts.is_ignore {
        add_ignore_head(rule, &parts, prefix, cooked_rules, unique_rules);
    } else {
        add_step_heads(rule, &parts, prefix, cooked_rules, unique_rules);
    }
    let ghost head = head_rules(s);
    match tail_rule_of(rule, &parts, prefix) {
        Some(r) => {
            add_candidate(r, cooked_rules, unique_rules, Ghost(head), Ghost(cooked0), Ghost(seen0));
            assert(head.push(r@) =~= candidate_rules(s));
        },
        None => {
            assert(head =~= candidate_rules(s));
        },
    }
}

/// The texts of the lines `rs`.
pub open spec fn lines(rs: Seq<&str>) -> Seq<Seq<char>> {
    rs.map_values(|s: &str| s@)
}

/// The views of two lists of rules laid end to end.
proof fn lemma_views_add(a: Seq<Rule>, b: Seq<Rule>)
    ensures
        views(a + b) == views(a) + views(b),
{
    assert(views(a + b) =~= views(a) + views(b));
}

/// The rules that the lines `rules` give, each rule kept only for the last
/// line that gives it.
fn cook_rules(rules: &[&str]) -> (r: Vec<Rule>)
    ensures
        views(r@) == cooked_rules(lines(rules@)),
{
    let ghost strs = lines(rules@);
    let mut out: Vec<Rule> = Vec::new();
    let mut unique: Vec<Rule> = Vec::new();
    let mut i = rules.len();
    assert(strs.skip(i as int) =~= seq![]);
    assert(views(out@) =~= seq![]);
    assert(views(unique@) =~= seq![]);
    while i > 0
        invariant
            i <= rules@.len(),
            strs == lines(rules@),
            views(out@) == cooked_rules(strs.skip(i as int)),
            views(unique@) == seen_rules(strs.skip(i as int)),
        decreases i,
    {
        i = i - 1;
        let ghost later = strs.skip(i + 1);
        let ghost seen = views(unique@);
        let mut prepared: Vec<Rule> = Vec::new();
        assert(views(prepared@) =~= seq![]);
        prepare_rule(rules[i], &mut prepared, &mut unique);
        let ghost fresh = fresh_rules(candidate_rules(strs[i as int]), seen);
        assert(seq![] + fresh =~= fresh);
        assert(strs.skip(i as int).drop_first() =~= later);
        assert(strs.skip(i as int)[0] == strs[i as int]);
        let ghost old_out = out@;
        let ghost pre = prepared@;
        prepared.append(&mut out);
        proof {
            lemma_views_add(pre, old_out);
        }
        out = prepared;
    }
    assert(strs.skip(0) =~= strs);
    out
}

/// The glob patterns of `rules` with their `literal_separator` settings,
/// and whether no rule includes anything relative.
fn glob_specs(rules: &Vec<Rule>) -> (r: (Vec<(String, bool)>, bool))
    ensures
        r.0@.map_values(|g: (String, bool)| (g.0@, g.1)) == glob_pairs(views(rules@)),
        r.1 == skips_unknown_dirs(views(rules@)),
{
    let ghost rs = views(rules@);
    let mut pairs: Vec<(String, bool)> = Vec::new();
    let mut skip = true;
    let mut i: usize = 0;
    while i < rules.len()
        invariant
            rs == views(rules@),
            i <= rules@.len(),
            pairs@.len() == i,
            forall|k: int|
                0 <= k < i ==> (#[trigger] pairs@[k]).0@ == rs[k].glob && pairs@[k].1
                    == rs[k].literal_sep,
            skip == forall|k: int| 0 <= k < i ==> rs[k].is_absolute || rs[k].is_ignore,
        decreases rules@.len() - i,
    {
        let rule = &rules[i];
        assert(rs[i as int] == rule@);
        if !rule.is_absolute && !rule.is_ignore {
            skip = false;
        }
        pairs.push((copy_string(&rule.glob), rule.literal_sep));
        i = i + 1;
    }
    assert(pairs@.map_values(|g: (String, bool)| (g.0@, g.1)) =~= glob_pairs(rs));
    (pairs, skip)
}

impl PathFilter {
    /// A filter by gitignore-style glob lines: a line matches files and
    /// directories at any depth, or at the root where it starts with `/`;
    /// a line that ends with `/` matches only directories and what is below
    /// them; a line that starts with `!` ignores what it matches; where
    /// several lines match a path, the last one decides.
    pub fn glob(rules: &[&str]) -> (r: Result<PathFilter, FilterError>)
        ensures
            r is Ok <==> globset_builds(glob_pairs(cooked_rules(lines(rules@)))),
            r matches Ok(f) ==> f@ == FilterView::Glob(
                cooked_rules(lines(rules@)),
                skips_unknown_dirs(cooked_rules(lines(rules@))),
            ) && f.wf(),
            r matches Err(e) ==> e is Glob,
    {
        let ruleset = cook_rules(rules);
        let (pairs, skip_unknown_dirs) = glob_specs(&ruleset);
        match build_glob_set(&pairs) {
            Ok(globs) => {
                proof {
                    let rs = views(ruleset@);
                    assert(pairs@.map_values(|g: (String, bool)| (g.0@, g.1)).len() == glob_pairs(rs).len());
                    assert(pairs@.len() == ruleset@.len());
                    assert forall|i: int| 0 <= i < ruleset@.len() implies glob_builds(
                        #[trigger] views(ruleset@)[i].glob,
                        views(ruleset@)[i].literal_sep,
                    ) by {
                        assert(pairs@.map_values(|g: (String, bool)| (g.0@, g.1))[i] == glob_pairs(rs)[i]);
                        assert(glob_builds(pairs@[i].0@, pairs@[i].1));
                    }
                }
                Ok(PathFilter::Glob { globs, rules: ruleset, skip_unknown_dirs })
            },
            Err(e) => Err(FilterError::Glob(e)),
        }
    }
}

/// What a walk over a directory tree does with one entry.
#[derive(Debug, PartialEq, Eq, Clone, Copy)]
pub enum WalkStep {
    /// Yield the entry.
    Emit,
    /// Leave the entry out, but walk into it if it is a directory.
    Pass,
    /// Leave the entry out and do not walk into it.
    Prune,
}

/// What a walk with the filter `f` does with the entry at the relative path
/// `path`: the root itself is passed over; an included entry is yielded
/// unless its rule only leads towards deeper paths (a directory on the way,
/// or a directory matched by a rule for files); an ignored directory is
/// pruned; an entry no rule matches is pruned where the filter allows it
/// (for a directory), yielded by a filter of regular expressions without
/// an include expression, and passed over otherwise.
pub open spec fn walk_step_of(f: FilterView, path: Seq<char>, is_dir: bool) -> WalkStep {
    if path.len() == 0 {
        WalkStep::Pass
    } else {
        match filter_verdict(f, path, is_dir) {
            Verdict::Include(Some(rule)) => if rule.is_intermediate || (is_dir && !rule.is_dir) {
                WalkStep::Pass
            } else {
                WalkStep::Emit
            },
            Verdict::Include(None) => WalkStep::Emit,
            Verdict::Ignore(_) => if is_dir {
                WalkStep::Prune
            } else {
                WalkStep::Pass
            },
            Verdict::Nothing => match f {
                FilterView::Glob(_, skip) => if is_dir && skip {
                    WalkStep::Prune
                } else {
                    WalkStep::Pass
                },
                FilterView::Re(_, include_re) => if include_re is Some {
                    WalkStep::Pass
                } else {
                    WalkStep::Emit
                },
            },
        }
    }
}

impl PathFilter {
    /// What a walk with this filter does with the entry at the relative path
    /// `path` (a directory where `is_dir`).
    pub fn walk_step(&self, path: &str, is_dir: bool) -> (r: WalkStep)
        requires
            self.wf(),
        ensures
            r == walk_step_of(self@, path@, is_dir),
    {
        if path.unicode_len() == 0 {
            return WalkStep::Pass;
        }
        let m = self.matched(path, is_dir);
        match m {
            Match::Include(Some(rule)) => {
                if rule.is_intermediate || (is_dir && !rule.is_dir) {
                    WalkStep::Pass
                } else {
                    WalkStep::Emit
                }
            },
            Match::Include(None) => WalkStep::Emit,
            Match::Ignore(_) => {
                if is_dir {
                    WalkStep::Prune
                } else {
                    WalkStep::Pass
                }
            },
            Match::NoMatch => match self {
                PathFilter::Glob { skip_unknown_dirs, .. } => {
                    if is_dir && *skip_unknown_dirs {
                        WalkStep::Prune
                    } else {
                        WalkStep::Pass
                    }
                },
                PathFilter::Re { include_re, .. } => {
                    if include_re.is_some() {
                        WalkStep::Pass
                    } else {
                        WalkStep::Emit
                    }
                },
            },
        }
    }
}

/// What `fresh_rules` keeps is new to `seen`, comes from `cands`, and is
/// kept once.
proof fn lemma_fresh_rules(cands: Seq<RuleView>, seen: Seq<RuleView>)
    ensures
        fresh_rules(cands, seen).no_duplicates(),
        forall|x: RuleView| #[trigger]
            fresh_rules(cands, seen).contains(x) ==> !seen.contains(x) && cands.contains(x),
    decreases cands.len(),
{
    if cands.len() > 0 {
        let f = fresh_rules(cands.drop_last(), seen);
        lemma_fresh_rules(cands.drop_last(), seen);
        let c = cands.last();
        if !(seen + f).contains(c) {
            assert forall|x: RuleView| #[trigger] f.push(c).contains(x) implies !seen.contains(x)
                && cands.contains(x) by {
                if x != c {
                    let k = choose|k: int| 0 <= k < f.push(c).len() && f.push(c)[k] == x;
                    assert(f.contains(x)) by {
                        assert(f[k] == x);
                    }
                    let m = choose|m: int| 0 <= m < cands.drop_last().len() && cands.drop_last()[m]
                        == x;
                    assert(cands[m] == x);
                } else {
                    assert(cands[cands.len() - 1] == x);
                    if seen.contains(x) {
                        let m = choose|m: int| 0 <= m < seen.len() && seen[m] == x;
                        assert((seen + f)[m] == x);
                    }
                }
            }
            assert forall|a: int, b: int|
                0 <= a < f.push(c).len() && 0 <= b < f.push(c).len() && a != b implies f.push(
                c,
            )[a] != f.push(c)[b] by {
                if a == f.len() {
                    assert((seen + f)[seen.len() + b] == f[b]);
                } else if b == f.len() {
                    assert((seen + f)[seen.len() + a] == f[a]);
                }
            }
        }
    }
}

/// What `cooked_rules` keeps is among what `seen_rules` keeps, and both
/// keep each rule once.
proof fn lemma_cooked_in_seen(strs: Seq<Seq<char>>)
    ensures
        cooked_rules(strs).no_duplicates(),
        seen_rules(strs).no_duplicates(),
        forall|x: RuleView| #[trigger]
            cooked_rules(strs).contains(x) ==> seen_rules(strs).contains(x),
    decreases strs.len(),
{
    if strs.len() > 0 {
        let rest = strs.drop_first();
        lemma_cooked_in_seen(rest);
        let later = seen_rules(rest);
        let f = fresh_rules(candidate_rules(strs[0]), later);
        lemma_fresh_rules(candidate_rules(strs[0]), later);
        let cr = cooked_rules(rest);
        assert forall|a: int, b: int| 0 <= a < f.len() && 0 <= b < cr.len() implies f[a]
            != cr[b] by {
            assert(f.contains(f[a]));
            assert(cr.contains(cr[b]));
        }
        vstd::seq_lib::lemma_no_dup_in_concat(f, cr);
        assert forall|a: int, b: int| 0 <= a < later.len() && 0 <= b < f.len() implies later[a]
            != f[b] by {
            assert(f.contains(f[b]));
            assert(later.contains(later[a]));
        }
        vstd::seq_lib::lemma_no_dup_in_concat(later, f);
        assert forall|x: RuleView| #[trigger]
            cooked_rules(strs).contains(x) implies seen_rules(strs).contains(x) by {
            let k = choose|k: int| 0 <= k < (f + cr).len() && (f + cr)[k] == x;
            if k < f.len() {
                assert((later + f)[later.len() + k] == x);
            } else {
                assert(cr[k - f.len()] == x);
                assert(cr.contains(x));
                let m = choose|m: int| 0 <= m < later.len() && later[m] == x;
                assert((later + f)[m] == x);
            }
        }
    }
}

/// No two rules of a glob filter are equal: a rule that several lines give
/// is kept once, for the last of them.
pub proof fn lemma_glob_rules_unique(strs: Seq<Seq<char>>)
    ensures
        cooked_rules(strs).no_duplicates(),
{
    lemma_cooked_in_seen(strs);
}

/// A rule for directories never decides about a file.
pub proof fn lemma_dir_rule_not_for_files(rs: Seq<RuleView>, path: Seq<char>)
    ensures
        glob_verdict(rs, path, false) matches Verdict::Include(Some(r)) ==> !r.is_dir,
        glob_verdict(rs, path, false) matches Verdict::Ignore(Some(r)) ==> !r.is_dir,
{
}

/// For a filter of regular expressions, a path that the ignore expression
/// matches is ignored, whatever the include expression says.
pub proof fn lemma_ignore_wins(
    ignore_re: Option<Seq<char>>,
    include_re: Option<Seq<char>>,
    path: Seq<char>,
    is_dir: bool,
)
    requires
        re_hit(ignore_re, path),
    ensures
        filter_verdict(FilterView::Re(ignore_re, include_re), path, is_dir) == Verdict::Ignore(
            None,
        ),
{
}

/// After `fresh_rules`, every candidate is among the rules seen or kept.
proof fn lemma_fresh_covers(cands: Seq<RuleView>, seen: Seq<RuleView>)
    ensures
        forall|x: RuleView| #[trigger] cands.contains(x) ==> (seen + fresh_rules(cands, seen)).contains(x),
    decreases cands.len(),
{
    if cands.len() > 0 {
        let init = cands.drop_last();
        lemma_fresh_covers(init, seen);
        let f = fresh_rules(init, seen);
        let f2 = fresh_rules(cands, seen);
        let c = cands.last();
        assert(f2 == if (seen + f).contains(c) {
            f
        } else {
            f.push(c)
        });
        assert forall|x: RuleView| #[trigger] cands.contains(x) implies (seen + f2).contains(x) by {
            if x == c {
                if !(seen + f).contains(c) {
                    assert((seen + f2)[(seen.len() + f.len()) as int] == c);
                }
            } else {
                let k = choose|k: int| 0 <= k < cands.len() && cands[k] == x;
                assert(k < cands.len() - 1);
                assert(init[k] == x);
                assert(init.contains(x));
            }
            if (seen + f).contains(x) {
                let m = choose|m: int| 0 <= m < (seen + f).len() && (seen + f)[m] == x;
                assert((seen + f2)[m] == x);
            }
        }
    }
}

/// `fresh_rules` keeps nothing of candidates that were all seen.
proof fn lemma_fresh_none(cands: Seq<RuleView>, seen: Seq<RuleView>)
    requires
        forall|x: RuleView| #[trigger] cands.contains(x) ==> seen.contains(x),
    ensures
        fresh_rules(cands, seen) == Seq::<RuleView>::empty(),
    decreases cands.len(),
{
    if cands.len() > 0 {
        let init = cands.drop_last();
        assert forall|x: RuleView| #[trigger] init.contains(x) implies seen.contains(x) by {
            let k = choose|k: int| 0 <= k < init.len() && init[k] == x;
            assert(cands[k] == x);
            assert(cands.contains(x));
        }
        lemma_fresh_none(init, seen);
        assert(cands.contains(cands.last()));
        assert(seen + Seq::<RuleView>::empty() =~= seen);
    }
}

/// What one line adds to the rules of a filter (what `prepare_rule` appends
/// to both lists), where the rules `seen` were kept before: only rules new
/// to `seen`, each once; and the same line taken again, after them, adds
/// nothing.
pub proof fn lemma_line_adds_fresh_rules(line: Seq<char>, seen: Seq<RuleView>)
    ensures
        fresh_rules(candidate_rules(line), seen).no_duplicates(),
        forall|x: RuleView| #[trigger]
            fresh_rules(candidate_rules(line), seen).contains(x) ==> !seen.contains(x),
        fresh_rules(candidate_rules(line), seen + fresh_rules(candidate_rules(line), seen))
            == Seq::<RuleView>::empty(),
{
    let cands = candidate_rules(line);
    lemma_fresh_rules(cands, seen);
    lemma_fresh_covers(cands, seen);
    lemma_fresh_none(cands, seen + fresh_rules(cands, seen));
}


/// The rules that the lines `strs` give when each line is taken alone, on
/// fresh sets, and the results are put one after the other in line order.
pub open spec fn rules_line_by_line(strs: Seq<Seq<char>>) -> Seq<RuleView>
    decreases strs.len(),
{
    if strs.len() == 0 {
        seq![]
    } else {
        fresh_rules(candidate_rules(strs[0]), seq![]) + rules_line_by_line(strs.drop_first())
    }
}

/// Whether no two different lines of `strs` give a common rule.
pub open spec fn lines_give_disjoint_rules(strs: Seq<Seq<char>>) -> bool {
    forall|i: int, j: int, x: RuleView|
        0 <= i < strs.len() && 0 <= j < strs.len() && i != j && #[trigger] candidate_rules(
            strs[i],
        ).contains(x) ==> !#[trigger] candidate_rules(strs[j]).contains(x)
}

proof fn lemma_fresh_unseen(cands: Seq<RuleView>, seen: Seq<RuleView>)
    requires
        forall|x: RuleView| #[trigger] cands.contains(x) ==> !seen.contains(x),
    ensures
        fresh_rules(cands, seen) == fresh_rules(cands, seq![]),
    decreases cands.len(),
{
    if cands.len() > 0 {
        let init = cands.drop_last();
        assert forall|x: RuleView| #[trigger] init.contains(x) implies !seen.contains(x) by {
            let k = choose|k: int| 0 <= k < init.len() && init[k] == x;
            assert(cands[k] == x);
            assert(cands.contains(x));
        }
        lemma_fresh_unseen(init, seen);
        let f = fresh_rules(init, seen);
        let c = cands.last();
        assert(cands.contains(c));
        assert(Seq::<RuleView>::empty() + f =~= f);
        assert((seen + f).contains(c) == f.contains(c)) by {
            if (seen + f).contains(c) {
                let k = choose|k: int| 0 <= k < (seen + f).len() && (seen + f)[k] == c;
                if k < seen.len() {
                    assert(seen[k] == c);
                } else {
                    assert(f[k - seen.len()] == c);
                }
            }
            if f.contains(c) {
                let k = choose|k: int| 0 <= k < f.len() && f[k] == c;
                assert((seen + f)[seen.len() + k] == c);
            }
        }
    }
}

proof fn lemma_seen_from_lines(strs: Seq<Seq<char>>)
    ensures
        forall|x: RuleView| #[trigger]
            seen_rules(strs).contains(x) ==> exists|j: int|
                0 <= j < strs.len() && #[trigger] candidate_rules(strs[j]).contains(x),
    decreases strs.len(),
{
    if strs.len() > 0 {
        let rest = strs.drop_first();
        lemma_seen_from_lines(rest);
        let later = seen_rules(rest);
        let f = fresh_rules(candidate_rules(strs[0]), later);
        lemma_fresh_rules(candidate_rules(strs[0]), later);
        assert forall|x: RuleView| #[trigger] seen_rules(strs).contains(x) implies exists|j: int|
            0 <= j < strs.len() && #[trigger] candidate_rules(strs[j]).contains(x) by {
            let k = choose|k: int| 0 <= k < (later + f).len() && (later + f)[k] == x;
            if k < later.len() {
                assert(later[k] == x);
                assert(later.contains(x));
                let j = choose|j: int|
                    0 <= j < rest.len() && #[trigger] candidate_rules(rest[j]).contains(x);
                assert(strs[j + 1] == rest[j]);
                assert(candidate_rules(strs[j + 1]).contains(x));
            } else {
                assert(f[k - later.len()] == x);
                assert(f.contains(x));
                assert(candidate_rules(strs[0]).contains(x));
            }
        }
    }
}

/// The rules of a glob filter, line by line: where no two lines give a
/// common rule, the filter keeps exactly the rules that each line gives
/// when taken alone, in line order. (Where two lines do give a common rule,
/// the filter keeps it once, for the later line.)
pub proof fn lemma_rules_line_by_line(strs: Seq<Seq<char>>)
    requires
        lines_give_disjoint_rules(strs),
    ensures
        cooked_rules(strs) == rules_line_by_line(strs),
    decreases strs.len(),
{
    if strs.len() > 0 {
        let rest = strs.drop_first();
        assert forall|i: int, j: int, x: RuleView|
            0 <= i < rest.len() && 0 <= j < rest.len() && i != j && #[trigger] candidate_rules(
                rest[i],
            ).contains(x) implies !#[trigger] candidate_rules(rest[j]).contains(x) by {
            assert(rest[i] == strs[i + 1]);
            assert(rest[j] == strs[j + 1]);
        }
        lemma_rules_line_by_line(rest);
        lemma_seen_from_lines(rest);
        let c0 = candidate_rules(strs[0]);
        assert forall|x: RuleView| #[trigger] c0.contains(x) implies !seen_rules(rest).contains(x) by {
            if seen_rules(rest).contains(x) {
                let j = choose|j: int|
                    0 <= j < rest.len() && #[trigger] candidate_rules(rest[j]).contains(x);
                assert(rest[j] == strs[j + 1]);
                assert(candidate_rules(strs[j + 1]).contains(x));
            }
        }
        lemma_fresh_unseen(c0, seen_rules(rest));
    }
}

} // verus!
