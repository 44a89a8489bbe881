use vstd::prelude::*;
use vstd::string::*;

verus! {

/// Whether `c` is whitespace in the sense of `char::is_whitespace`: it has
/// the Unicode `White_Space` property, which these 25 code points have.
pub open spec fn is_space(c: char) -> bool {
    let n = c as u32;
    ||| 0x09 <= n <= 0x0d
    ||| n == 0x20
    ||| n == 0x85
    ||| n == 0xa0
    ||| n == 0x1680
    ||| 0x2000 <= n <= 0x200a
    ||| n == 0x2028
    ||| n == 0x2029
    ||| n == 0x202f
    ||| n == 0x205f
    ||| n == 0x3000
}

/// `c` is an ASCII digit.
pub open spec fn ascii_digit(c: char) -> bool {
    '0' <= c <= '9'
}

/// `c` is an ASCII letter.
pub open spec fn ascii_letter(c: char) -> bool {
    ('a' <= c <= 'z') || ('A' <= c <= 'Z')
}

/// Whether `c` is alphanumeric in the sense of `char::is_alphanumeric`.
pub uninterp spec fn is_alnum(c: char) -> bool;

/// Whether `c` is numeric in the sense of `char::is_numeric`.
pub uninterp spec fn is_num(c: char) -> bool;

/// Whether `c` is whitespace, as `char::is_whitespace` answers it.
pub fn char_is_whitespace(c: char) -> (r: bool)
    ensures
        r == is_space(c),
{
    let n = c as u32;
    (0x09 <= n && n <= 0x0d) || n == 0x20 || n == 0x85 || n == 0xa0 || n == 0x1680
        || (0x2000 <= n && n <= 0x200a) || n == 0x2028 || n == 0x2029 || n == 0x202f
        || n == 0x205f || n == 0x3000
}

/// Calls `char::is_alphanumeric`; its answer is named `is_alnum`. The
/// contract also claims what std documents for ASCII: digits and letters
/// are alphanumeric, other ASCII characters are not.
#[verifier::external_body]
pub fn char_is_alphanumeric(c: char) -> (r: bool)
    ensures
        r == is_alnum(c),
        (c as u32) < 128 ==> (r <==> ascii_digit(c) || ascii_letter(c)),
{
    c.is_alphanumeric()
}

/// Calls `char::is_numeric`; its answer is named `is_num`. The contract
/// also claims what std documents for ASCII: the digits are numeric, other
/// ASCII characters are not.
#[verifier::external_body]
pub fn char_is_numeric(c: char) -> (r: bool)
    ensures
        r == is_num(c),
        (c as u32) < 128 ==> (r <==> ascii_digit(c)),
{
    c.is_numeric()
}

/// Calls `String::push`, which appends one character.
#[verifier::external_body]
pub fn push_char(s: &mut String, c: char)
    ensures
        final(s)@ == old(s)@.push(c),
{
    s.push(c);
}

/// The characters of `s`, in order.
pub fn chars_of(s: &str) -> (v: Vec<char>)
    ensures
        v@ == s@,
{
    let mut v: Vec<char> = Vec::new();
    for c in it: s.chars()
        invariant
            v@ == it.seq().take(it.index() as int),
            it.seq() == s@,
    {
        v.push(c);
    }
    v
}

/// A string made of the characters `v[from..to]`.
pub fn string_of(v: &Vec<char>, from: usize, to: usize) -> (s: String)
    requires
        from <= to <= v@.len(),
    ensures
        s@ == v@.subrange(from as int, to as int),
{
    let mut s = String::new();
    let mut i = from;
    while i < to
        invariant
            from <= i <= to <= v@.len(),
            s@ == v@.subrange(from as int, i as int),
        decreases to - i,
    {
        push_char(&mut s, v[i]);
        i = i + 1;
        assert(s@ =~= v@.subrange(from as int, i as int));
    }
    s
}

/// A string made of all the characters of `v`.
pub fn string_from(v: &Vec<char>) -> (s: String)
    ensures
        s@ == v@,
{
    let s = string_of(v, 0, v.len());
    assert(v@.subrange(0, v@.len() as int) =~= v@);
    s
}

/// `s` begins with `p`.
pub open spec fn has_prefix(s: Seq<char>, p: Seq<char>) -> bool {
    p.len() <= s.len() && s.subrange(0, p.len() as int) == p
}

/// `s` ends with `p`.
pub open spec fn has_suffix(s: Seq<char>, p: Seq<char>) -> bool {
    p.len() <= s.len() && s.subrange(s.len() - p.len(), s.len() as int) == p
}

/// Whether `s` begins with `p`.
pub fn starts_with(s: &Vec<char>, p: &str) -> (r: bool)
    ensures
        r == has_prefix(s@, p@),
{
    let pv = chars_of(p);
    if pv.len() > s.len() {
        return false;
    }
    let mut i: usize = 0;
    while i < pv.len()
        invariant
            pv@ == p@,
            pv@.len() <= s@.len(),
            i <= pv@.len(),
            forall|k: int| 0 <= k < i ==> s@[k] == pv@[k],
        decreases pv.len() - i,
    {
        if s[i] != pv[i] {
            assert(s@.subrange(0, pv@.len() as int)[i as int] != pv@[i as int]);
            return false;
        }
        i = i + 1;
    }
    assert(s@.subrange(0, pv@.len() as int) =~= pv@);
    true
}

/// Whether `s` ends with `p`.
pub fn ends_with(s: &Vec<char>, p: &str) -> (r: bool)
    ensures
        r == has_suffix(s@, p@),
{
    let pv = chars_of(p);
    if pv.len() > s.len() {
        return false;
    }
    let off = s.len() - pv.len();
    let mut i: usize = 0;
    while i < pv.len()
        invariant
            pv@ == p@,
            off + pv@.len() == s@.len(),
            off + pv.len() == s.len(),
            i <= pv@.len(),
            forall|k: int| 0 <= k < i ==> s@[off + k] == pv@[k],
        decreases pv.len() - i,
    {
        if s[off + i] != pv[i] {
            assert(s@.subrange(off as int, s@.len() as int)[i as int] != pv@[i as int]);
            return false;
        }
        i = i + 1;
    }
    assert(s@.subrange(off as int, s@.len() as int) =~= pv@);
    true
}

/// Whether the character sequences `a` and `b` are equal.
pub fn chars_eq(a: &Vec<char>, b: &Vec<char>) -> (r: bool)
    ensures
        r == (a@ == b@),
{
    if a.len() != b.len() {
        return false;
    }
    let mut i: usize = 0;
    while i < a.len()
        invariant
            a@.len() == b@.len(),
            i <= a@.len(),
            forall|k: int| 0 <= k < i ==> a@[k] == b@[k],
        decreases a.len() - i,
    {
        if a[i] != b[i] {
            return false;
        }
        i = i + 1;
    }
    assert(a@ =~= b@);
    true
}

/// Whether `a` equals the text `b`.
pub fn eq_str(a: &Vec<char>, b: &str) -> (r: bool)
    ensures
        r == (a@ == b@),
{
    let bv = chars_of(b);
    chars_eq(a, &bv)
}

/// `s` without its leading whitespace.
pub open spec fn trim_start_spec(s: Seq<char>) -> Seq<char>
    decreases s.len(),
{
    if s.len() > 0 && is_space(s[0]) {
        trim_start_spec(s.drop_first())
    } else {
        s
    }
}

/// `s` without its trailing whitespace.
pub open spec fn trim_end_spec(s: Seq<char>) -> Seq<char>
    decreases s.len(),
{
    if s.len() > 0 && is_space(s.last()) {
        trim_end_spec(s.drop_last())
    } else {
        s
    }
}

/// `s` without leading and trailing whitespace, as `str::trim` gives it.
pub open spec fn trim_spec(s: Seq<char>) -> Seq<char> {
    trim_end_spec(trim_start_spec(s))
}

/// The bounds `(a, b)` such that `v[a..b]` is `v[from..to]` without its
/// leading and trailing whitespace.
pub fn trim_bounds(v: &Vec<char>, from: usize, to: usize) -> (r: (usize, usize))
    requires
        from <= to <= v@.len(),
    ensures
        from <= r.0 <= r.1 <= to,
        v@.subrange(r.0 as int, r.1 as int) == trim_spec(v@.subrange(from as int, to as int)),
{
    let ghost s = v@.subrange(from as int, to as int);
    let mut a = from;
    while a < to && char_is_whitespace(v[a])
        invariant
            from <= a <= to <= v@.len(),
            s == v@.subrange(from as int, to as int),
            trim_start_spec(s) == trim_start_spec(v@.subrange(a as int, to as int)),
        decreases to - a,
    {
        assert(v@.subrange(a as int, to as int).drop_first() =~= v@.subrange(a + 1, to as int));
        a = a + 1;
    }
    assert(trim_start_spec(v@.subrange(a as int, to as int)) == v@.subrange(a as int, to as int));
    let mut b = to;
    while b > a && char_is_whitespace(v[b - 1])
        invariant
            from <= a <= b <= to <= v@.len(),
            trim_spec(s) == trim_end_spec(v@.subrange(a as int, b as int)),
        decreases b - a,
    {
        assert(v@.subrange(a as int, b as int).drop_last() =~= v@.subrange(a as int, b - 1));
        b = b - 1;
    }
    (a, b)
}

/// `s` without leading and trailing whitespace.
pub fn trim(s: &str) -> (r: String)
    ensures
        r@ == trim_spec(s@),
{
    let v = chars_of(s);
    let (a, b) = trim_bounds(&v, 0, v.len());
    assert(v@.subrange(0, v@.len() as int) =~= v@);
    string_of(&v, a, b)
}

/// What `format!("{:?}", s)` gives for the text `s`: the text quoted and
/// escaped as Rust writes a string literal.
pub uninterp spec fn debug_text(s: Seq<char>) -> Seq<char>;

/// Calls the `Debug` formatting of `str`; its result is named `debug_text`.
#[verifier::external_body]
pub fn debug_quote(s: &str) -> (r: String)
    ensures
        r@ == debug_text(s@),
{
    format!("{:?}", s)
}

/// What `format!("{:?}", Path::new(s))` gives for the path `s`: the path
/// quoted and escaped as `Path`'s `Debug` writes it.
pub uninterp spec fn path_debug_text(s: Seq<char>) -> Seq<char>;

/// Calls the `Debug` formatting of `std::path::Path`; its result is named
/// `path_debug_text`.
#[verifier::external_body]
pub fn path_debug(s: &str) -> (r: String)
    ensures
        r@ == path_debug_text(s@),
{
    format!("{:?}", std::path::Path::new(s))
}

/// The text `a` followed by the text `b`.
pub fn concat(a: &str, b: &str) -> (r: String)
    ensures
        r@ == a@ + b@,
{
    let mut r = String::from_str(a);
    r.append(b);
    r
}

/// Appends the characters `v[from..to]` to `s`.
pub fn push_chars(s: &mut String, v: &Vec<char>, from: usize, to: usize)
    requires
        from <= to <= v@.len(),
    ensures
        final(s)@ == old(s)@ + v@.subrange(from as int, to as int),
{
    let mut i = from;
    while i < to
        invariant
            from <= i <= to <= v@.len(),
            s@ == old(s)@ + v@.subrange(from as int, i as int),
        decreases to - i,
    {
        push_char(s, v[i]);
        i = i + 1;
        assert(s@ =~= old(s)@ + v@.subrange(from as int, i as int));
    }
}

/// Whether `v[from..to]` holds the character `c`.
pub fn contains_char(v: &Vec<char>, from: usize, to: usize, c: char) -> (r: bool)
    requires
        from <= to <= v@.len(),
    ensures
        r == v@.subrange(from as int, to as int).contains(c),
{
    let mut i = from;
    while i < to
        invariant
            from <= i <= to <= v@.len(),
            forall|k: int| from <= k < i ==> v@[k] != c,
        decreases to - i,
    {
        if v[i] == c {
            assert(v@.subrange(from as int, to as int)[i - from] == c);
            return true;
        }
        i = i + 1;
    }
    assert forall|k: int| 0 <= k < to - from implies v@.subrange(from as int, to as int)[k] != c by {
        assert(v@.subrange(from as int, to as int)[k] == v@[from + k]);
    }
    false
}

/// Whether the texts `a` and `b` are equal.
pub fn same_text(a: &str, b: &str) -> (r: bool)
    ensures
        r == (a@ == b@),
{
    let av = chars_of(a);
    eq_str(&av, b)
}

/// The pieces of `s` between the characters `c`, as `str::split` gives
/// them: one more piece than there are `c` in `s`.
pub open spec fn split_on(s: Seq<char>, c: char) -> Seq<Seq<char>>
    decreases s.len(),
{
    if s.len() == 0 {
        seq![seq![]]
    } else {
        let init = split_on(s.drop_last(), c);
        if s.last() == c {
            init.push(seq![])
        } else {
            init.update(init.len() - 1, init.last().push(s.last()))
        }
    }
}

/// `split_on` gives at least one piece.
pub proof fn lemma_split_on_len(s: Seq<char>, c: char)
    ensures
        split_on(s, c).len() >= 1,
    decreases s.len(),
{
    if s.len() > 0 {
        lemma_split_on_len(s.drop_last(), c);
    }
}

/// The texts of `v`.
pub open spec fn string_views(v: Seq<String>) -> Seq<Seq<char>> {
    v.map_values(|s: String| s@)
}

/// The pieces of `s` between the characters `c`.
pub fn split_char(s: &str, c: char) -> (r: Vec<String>)
    ensures
        string_views(r@) == split_on(s@, c),
{
    let v = chars_of(s);
    let mut done: Vec<String> = Vec::new();
    let mut cur = String::new();
    let mut i: usize = 0;
    assert(v@.take(0) =~= seq![]);
    while i < v.len()
        invariant
            v@ == s@,
            i <= v@.len(),
            string_views(done@).push(cur@) == split_on(v@.take(i as int), c),
        decreases v.len() - i,
    {
        let ch = v[i];
        let ghost before = split_on(v@.take(i as int), c);
        assert(v@.take(i + 1).drop_last() =~= v@.take(i as int));
        assert(v@.take(i + 1).last() == ch);
        proof {
            lemma_split_on_len(v@.take(i as int), c);
        }
        if ch == c {
            let piece = cur;
            let ghost d0 = done@;
            done.push(piece);
            cur = String::new();
            assert(string_views(done@) =~= string_views(d0).push(piece@));
            assert(string_views(done@).push(cur@) =~= before.push(seq![]));
        } else {
            let ghost c0 = cur@;
            push_char(&mut cur, ch);
            assert(string_views(done@).push(cur@) =~= before.update(
                before.len() - 1,
                before.last().push(ch),
            ));
        }
        i = i + 1;
    }
    assert(v@.take(i as int) =~= v@);
    let ghost d1 = done@;
    done.push(cur);
    assert(string_views(done@) =~= string_views(d1).push(done@.last()@));
    done
}

/// A line without the `\r` of a `\r\n` line ending.
pub open spec fn strip_cr(l: Seq<char>) -> Seq<char> {
    if l.len() > 0 && l.last() == '\r' {
        l.drop_last()
    } else {
        l
    }
}

/// The lines of `s` as `BufRead::lines` reads them: split at `\n`, without
/// the `\r` of a `\r\n` ending, and without an empty piece after a final
/// `\n`.
pub open spec fn lines_of(s: Seq<char>) -> Seq<Seq<char>> {
    let parts = split_on(s, '\n');
    parts.drop_last().map_values(|l: Seq<char>| strip_cr(l)) + if parts.last().len() == 0 {
        Seq::<Seq<char>>::empty()
    } else {
        seq![parts.last()]
    }
}

/// `s` without a final `\r`.
fn without_cr(s: &String) -> (r: String)
    ensures
        r@ == strip_cr(s@),
{
    let v = chars_of(s.as_str());
    if v.len() > 0 && v[v.len() - 1] == '\r' {
        string_of(&v, 0, v.len() - 1)
    } else {
        assert(v@.subrange(0, v@.len() as int) =~= v@);
        string_of(&v, 0, v.len())
    }
}

/// The lines of `s`.
pub fn text_lines(s: &str) -> (r: Vec<String>)
    ensures
        string_views(r@) == lines_of(s@),
{
    let parts = split_char(s, '\n');
    let ghost ps = split_on(s@, '\n');
    proof {
        lemma_split_on_len(s@, '\n');
    }
    let mut r: Vec<String> = Vec::new();
    let mut i: usize = 0;
    let n = parts.len();
    while i + 1 < n
        invariant
            string_views(parts@) == ps,
            n == parts@.len(),
            n >= 1,
            i + 1 <= n,
            string_views(r@) == ps.take(i as int).map_values(|l: Seq<char>| strip_cr(l)),
        decreases n - i,
    {
        let line = without_cr(&parts[i]);
        let ghost r0 = r@;
        r.push(line);
        assert(ps[i as int] == parts@[i as int]@);
        assert(string_views(r@) =~= string_views(r0).push(line@));
        assert(ps.take(i + 1).map_values(|l: Seq<char>| strip_cr(l)) =~= ps.take(i as int).map_values(
            |l: Seq<char>| strip_cr(l),
        ).push(strip_cr(ps[i as int])));
        i = i + 1;
    }
    assert(ps.take(i as int) =~= ps.drop_last());
    let last = &parts[n - 1];
    assert(ps.last() == last@);
    if last.unicode_len() != 0 {
        let ghost r0 = r@;
        r.push(last.clone());
        assert(string_views(r@) =~= string_views(r0).push(last@));
    } else {
        assert(string_views(r@) =~= string_views(r@) + Seq::<Seq<char>>::empty());
    }
    r
}

/// The text of an optional string.
pub open spec fn opt_text(o: Option<String>) -> Option<Seq<char>> {
    match o {
        Some(s) => Some(s@),
        None => None,
    }
}

/// The text `a`, then `b`, then `c`.
pub fn concat3(a: &str, b: &str, c: &str) -> (r: String)
    ensures
        r@ == a@ + b@ + c@,
{
    let mut r = String::from_str(a);
    r.append(b);
    r.append(c);
    r
}

/// Whether `s` starts with the text `p`.
pub fn str_starts_with(s: &str, p: &str) -> (r: bool)
    ensures
        r == has_prefix(s@, p@),
{
    let v = chars_of(s);
    starts_with(&v, p)
}

/// Whether `s` ends with the text `p`.
pub fn str_ends_with(s: &str, p: &str) -> (r: bool)
    ensures
        r == has_suffix(s@, p@),
{
    let v = chars_of(s);
    ends_with(&v, p)
}

/// `s` with every match of `pat` replaced by `rep`, matches taken from
/// left to right without overlapping, as `str::replace` does for a pattern
/// that is not empty.
pub open spec fn replace_spec(s: Seq<char>, pat: Seq<char>, rep: Seq<char>) -> Seq<char>
    decreases s.len(),
{
    if s.len() == 0 {
        seq![]
    } else if pat.len() > 0 && has_prefix(s, pat) {
        rep + replace_spec(s.skip(pat.len() as int), pat, rep)
    } else {
        seq![s[0]] + replace_spec(s.drop_first(), pat, rep)
    }
}

/// Whether `v[i..]` starts with `p`.
fn matches_at(v: &Vec<char>, i: usize, p: &Vec<char>) -> (r: bool)
    requires
        i <= v@.len(),
    ensures
        r == has_prefix(v@.skip(i as int), p@),
{
    if p.len() > v.len() - i {
        return false;
    }
    let mut k: usize = 0;
    while k < p.len()
        invariant
            i + p@.len() <= v@.len(),
            v@.len() <= usize::MAX,
            k <= p@.len(),
            forall|j: int| 0 <= j < k ==> v@[i + j] == p@[j],
        decreases p.len() - k,
    {
        if v[i + k] != p[k] {
            assert(v@.skip(i as int).subrange(0, p@.len() as int)[k as int] != p@[k as int]);
            return false;
        }
        k = k + 1;
    }
    assert(v@.skip(i as int).subrange(0, p@.len() as int) =~= p@);
    true
}

/// `s` with every match of `pat` replaced by `rep`.
pub fn replace_all(s: &str, pat: &str, rep: &str) -> (r: String)
    requires
        pat@.len() > 0,
    ensures
        r@ == replace_spec(s@, pat@, rep@),
{
    let v = chars_of(s);
    let pv = chars_of(pat);
    let mut out = String::new();
    let mut i: usize = 0;
    assert(v@.skip(0) =~= v@);
    while i < v.len()
        invariant
            v@ == s@,
            pv@ == pat@,
            pv@.len() > 0,
            i <= v@.len(),
            out@ + replace_spec(v@.skip(i as int), pv@, rep@) == replace_spec(s@, pat@, rep@),
        decreases v.len() - i,
    {
        let ghost rest = v@.skip(i as int);
        if matches_at(&v, i, &pv) {
            out.append(rep);
            assert(rest.skip(pv@.len() as int) =~= v@.skip(i + pv@.len()));
            i = i + pv.len();
        } else {
            push_char(&mut out, v[i]);
            assert(rest.drop_first() =~= v@.skip(i + 1));
            assert(rest[0] == v@[i as int]);
            i = i + 1;
        }
    }
    assert(v@.skip(i as int) =~= seq![]);
    out
}

/// Every character of `s` is ASCII.
pub open spec fn ascii_text(s: Seq<char>) -> bool {
    forall|i: int| 0 <= i < s.len() ==> (s[i] as u32) < 128
}

/// Appends copies of `more` to `v`.
pub fn extend_strings(v: &mut Vec<String>, more: &Vec<String>)
    ensures
        string_views(final(v)@) == string_views(old(v)@) + string_views(more@),
{
    let ghost start = string_views(v@);
    let mut i: usize = 0;
    assert(string_views(more@).take(0) =~= seq![]);
    assert(start + seq![] =~= start);
    while i < more.len()
        invariant
            i <= more@.len(),
            string_views(v@) == start + string_views(more@).take(i as int),
        decreases more.len() - i,
    {
        let ghost g0 = string_views(v@);
        let x = more[i].clone();
        assert(x@ == string_views(more@)[i as int]);
        v.push(x);
        assert(string_views(v@) =~= g0.push(x@));
        assert(string_views(more@).take(i + 1) =~= string_views(more@).take(i as int).push(x@));
        i = i + 1;
    }
    assert(string_views(more@).take(i as int) =~= string_views(more@));
}

/// `k` is the position of the first `c` in `s`.
pub open spec fn first_at(s: Seq<char>, c: char, k: int) -> bool {
    0 <= k < s.len() && s[k] == c && forall|j: int| 0 <= j < k ==> s[j] != c
}

/// `k` is the position of the last `c` in `s`.
pub open spec fn last_at(s: Seq<char>, c: char, k: int) -> bool {
    0 <= k < s.len() && s[k] == c && forall|j: int| k < j < s.len() ==> s[j] != c
}

/// `s` split at its first `c`, as `str::split_once` does.
pub open spec fn split_once_spec(s: Seq<char>, c: char) -> Option<(Seq<char>, Seq<char>)> {
    if exists|k: int| first_at(s, c, k) {
        let k = choose|k: int| first_at(s, c, k);
        Some((s.take(k), s.skip(k + 1)))
    } else {
        None
    }
}

/// `s` split at its last `c`, as `str::rsplit_once` does.
pub open spec fn rsplit_once_spec(s: Seq<char>, c: char) -> Option<(Seq<char>, Seq<char>)> {
    if exists|k: int| last_at(s, c, k) {
        let k = choose|k: int| last_at(s, c, k);
        Some((s.take(k), s.skip(k + 1)))
    } else {
        None
    }
}

/// `s` split at its first `c`.
pub fn split_once_char(s: &str, c: char) -> (r: Option<(String, String)>)
    ensures
        match r {
            Some((a, b)) => split_once_spec(s@, c) == Some((a@, b@)),
            None => split_once_spec(s@, c) is None,
        },
{
    let v = chars_of(s);
    let mut k: usize = 0;
    while k < v.len() && v[k] != c
        invariant
            v@ == s@,
            k <= v@.len(),
            forall|j: int| 0 <= j < k ==> v@[j] != c,
        decreases v.len() - k,
    {
        k = k + 1;
    }
    if k == v.len() {
        assert(!exists|k2: int| first_at(s@, c, k2)) by {
            if exists|k2: int| first_at(s@, c, k2) {
                let k2 = choose|k2: int| first_at(s@, c, k2);
                assert(v@[k2] == c);
            }
        }
        return None;
    }
    assert(first_at(s@, c, k as int));
    assert forall|k2: int| first_at(s@, c, k2) implies k2 == k as int by {
        if k2 < k {
            assert(v@[k2] != c);
        } else if k2 > k {
            assert(s@[k as int] == c);
        }
    }
    let a = string_of(&v, 0, k);
    let b = string_of(&v, k + 1, v.len());
    assert(a@ =~= s@.take(k as int));
    assert(b@ =~= s@.skip(k + 1));
    Some((a, b))
}

/// `s` split at its last `c`.
pub fn rsplit_once_char(s: &str, c: char) -> (r: Option<(String, String)>)
    ensures
        match r {
            Some((a, b)) => rsplit_once_spec(s@, c) == Some((a@, b@)),
            None => rsplit_once_spec(s@, c) is None,
        },
{
    let v = chars_of(s);
    let mut k: usize = v.len();
    while k > 0 && v[k - 1] != c
        invariant
            v@ == s@,
            k <= v@.len(),
            forall|j: int| k <= j < v@.len() ==> v@[j] != c,
        decreases k,
    {
        k = k - 1;
    }
    if k == 0 {
        assert(!exists|k2: int| last_at(s@, c, k2)) by {
            if exists|k2: int| last_at(s@, c, k2) {
                let k2 = choose|k2: int| last_at(s@, c, k2);
                assert(v@[k2] == c);
            }
        }
        return None;
    }
    let m = k - 1;
    assert(last_at(s@, c, m as int));
    assert forall|k2: int| last_at(s@, c, k2) implies k2 == m as int by {
        if k2 > m {
            assert(v@[k2] != c);
        } else if k2 < m {
            assert(s@[m as int] == c);
        }
    }
    let a = string_of(&v, 0, m);
    let b = string_of(&v, m + 1, v.len());
    assert(a@ =~= s@.take(m as int));
    assert(b@ =~= s@.skip(m + 1));
    Some((a, b))
}

/// The character of the decimal digit `d`.
pub open spec fn digit_char(d: nat) -> char {
    (('0' as int) + d) as char
}

/// The decimal digits of `n`, as `to_string` writes an unsigned integer.
pub open spec fn decimal_of(n: nat) -> Seq<char>
    decreases n,
{
    if n < 10 {
        seq![digit_char(n)]
    } else {
        decimal_of(n / 10).push(digit_char(n % 10))
    }
}

fn digit(d: u32) -> (c: char)
    requires
        d < 10,
    ensures
        c == digit_char(d as nat),
{
    if d == 0 {
        '0'
    } else if d == 1 {
        '1'
    } else if d == 2 {
        '2'
    } else if d == 3 {
        '3'
    } else if d == 4 {
        '4'
    } else if d == 5 {
        '5'
    } else if d == 6 {
        '6'
    } else if d == 7 {
        '7'
    } else if d == 8 {
        '8'
    } else {
        '9'
    }
}

/// The decimal text of `n`.
pub fn decimal(n: u32) -> (r: String)
    ensures
        r@ == decimal_of(n as nat),
    decreases n,
{
    if n < 10 {
        let mut s = String::new();
        push_char(&mut s, digit(n));
        s
    } else {
        let mut s = decimal(n / 10);
        push_char(&mut s, digit(n % 10));
        s
    }
}

/// The number of bytes of the character `c` in UTF-8.
pub open spec fn utf8_len(c: char) -> nat {
    let n = c as u32;
    if n < 0x80 {
        1
    } else if n < 0x800 {
        2
    } else if n < 0x10000 {
        3
    } else {
        4
    }
}

/// The number of bytes of the text `s` in UTF-8.
pub open spec fn bytes_len(s: Seq<char>) -> nat
    decreases s.len(),
{
    if s.len() == 0 {
        0
    } else {
        bytes_len(s.drop_last()) + utf8_len(s.last())
    }
}

/// The start of `s` made of its first `n` bytes, as `&s[..n]` gives it;
/// `None` where `s` has fewer bytes or the `n`-th byte falls inside a
/// character (where `&s[..n]` panics).
pub open spec fn byte_prefix_of(s: Seq<char>, n: nat) -> Option<Seq<char>>
    decreases s.len(),
{
    if bytes_len(s) == n {
        Some(s)
    } else if s.len() == 0 {
        None
    } else {
        byte_prefix_of(s.drop_last(), n)
    }
}

fn utf8_width(c: char) -> (r: u8)
    ensures
        r as nat == utf8_len(c),
{
    let n = c as u32;
    if n < 0x80 {
        1
    } else if n < 0x800 {
        2
    } else if n < 0x10000 {
        3
    } else {
        4
    }
}

/// The start of `s` made of its first `n` bytes, where that ends between
/// two characters.
pub fn byte_prefix(s: &str, n: usize) -> (r: Option<String>)
    ensures
        opt_text(r) == byte_prefix_of(s@, n as nat),
{
    let v = chars_of(s);
    let mut acc: u128 = 0;
    let mut i: usize = 0;
    while i < v.len()
        invariant
            i <= v@.len(),
            acc == bytes_len(v@.take(i as int)),
            acc <= 4 * i,
        decreases v.len() - i,
    {
        assert(v@.take(i + 1).drop_last() =~= v@.take(i as int));
        let w = utf8_width(v[i]);
        acc = acc + w as u128;
        i = i + 1;
    }
    assert(v@.take(i as int) =~= v@);
    let mut k: usize = v.len();
    while k > 0
        invariant
            k <= v@.len(),
            v@ == s@,
            acc == bytes_len(v@.take(k as int)),
            byte_prefix_of(v@, n as nat) == byte_prefix_of(v@.take(k as int), n as nat),
        decreases k,
    {
        if acc == n as u128 {
            assert(v@.subrange(0, k as int) =~= v@.take(k as int));
            assert(byte_prefix_of(v@.take(k as int), n as nat) == Some(v@.take(k as int)));
            return Some(string_of(&v, 0, k));
        }
        assert(v@.take(k as int).drop_last() =~= v@.take(k - 1));
        let w = utf8_width(v[k - 1]);
        acc = acc - w as u128;
        k = k - 1;
    }
    assert(v@.take(0) =~= Seq::<char>::empty());
    if acc == n as u128 {
        Some(String::new())
    } else {
        None
    }
}

/// A text with fewer characters than another of which it is the start has
/// fewer bytes.
pub proof fn lemma_bytes_len_take(s: Seq<char>, k: int)
    requires
        0 <= k < s.len(),
    ensures
        bytes_len(s.take(k)) < bytes_len(s),
    decreases s.len(),
{
    if k < s.len() - 1 {
        assert(s.drop_last().take(k) =~= s.take(k));
        lemma_bytes_len_take(s.drop_last(), k);
    } else {
        assert(s.drop_last() =~= s.take(k));
    }
}

/// The start of `s` with `n` bytes is the first `k` characters, where
/// those have `n` bytes.
pub proof fn lemma_byte_prefix_at(s: Seq<char>, k: int, n: nat)
    requires
        0 <= k <= s.len(),
        bytes_len(s.take(k)) == n,
    ensures
        byte_prefix_of(s, n) == Some(s.take(k)),
    decreases s.len(),
{
    if k == s.len() {
        assert(s.take(k) =~= s);
    } else {
        lemma_bytes_len_take(s, k);
        assert(s.drop_last().take(k) =~= s.take(k));
        lemma_byte_prefix_at(s.drop_last(), k, n);
    }
}

/// ASCII text has one byte per character.
pub proof fn lemma_ascii_bytes(s: Seq<char>)
    requires
        ascii_text(s),
    ensures
        bytes_len(s) == s.len(),
    decreases s.len(),
{
    if s.len() > 0 {
        assert(ascii_text(s.drop_last()));
        lemma_ascii_bytes(s.drop_last());
    }
}

} // verus!
