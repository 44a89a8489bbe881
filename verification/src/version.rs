use vstd::prelude::*;
use vstd::string::*;
use crate::text::{chars_of, chars_eq, concat, debug_quote, debug_text, char_is_alphanumeric, char_is_numeric, is_alnum, is_num};
use std::cmp::Ordering;
use vstd::std_specs::cmp::{PartialEqSpecImpl, PartialOrdSpecImpl};

verus! {

/// A version string such as `v0.4.1-28-gfba00d7`, compared component by
/// component.
pub struct Version<'a>(pub &'a str);

/// One component of a version: a number or a word.
#[derive(Debug, PartialEq, Eq, Clone, Copy)]
pub enum Component<'a> {
    Numeric(u64),
    String(&'a str),
}

/// The components of a version, handed out one by one.
pub struct Components<'a> {
    items: Vec<Component<'a>>,
    pos: usize,
}

/// A version component as a mathematical value.
pub enum Part {
    Num(u64),
    Word(Seq<char>),
}

impl<'a> View for Component<'a> {
    type V = Part;

    open spec fn view(&self) -> Part {
        match self {
            Component::Numeric(n) => Part::Num(*n),
            Component::String(s) => Part::Word(s@),
        }
    }
}

/// The outcome of comparing two versions.
#[derive(PartialEq, Eq, Clone, Copy, Debug)]
pub enum Order {
    Less,
    Equal,
    Greater,
}

/// The version text without a leading `v`.
pub open spec fn version_body(s: Seq<char>) -> Seq<char> {
    if s.len() > 0 && s[0] == 'v' {
        s.drop_first()
    } else {
        s
    }
}

/// The length of the run of numeric characters that starts `s`.
pub open spec fn numeric_run(s: Seq<char>) -> nat
    decreases s.len(),
{
    if s.len() > 0 && is_num(s[0]) {
        1 + numeric_run(s.drop_first())
    } else {
        0
    }
}

/// The length of the run of alphanumeric characters that starts `s`.
pub open spec fn alnum_run(s: Seq<char>) -> nat
    decreases s.len(),
{
    if s.len() > 0 && is_alnum(s[0]) {
        1 + alnum_run(s.drop_first())
    } else {
        0
    }
}

/// Every character of `d` is an ASCII digit.
pub open spec fn all_digits(d: Seq<char>) -> bool {
    forall|k: int| 0 <= k < d.len() ==> '0' <= #[trigger] d[k] <= '9'
}

/// The decimal value of the digits `d`.
pub open spec fn dec_value(d: Seq<char>) -> nat
    decreases d.len(),
{
    if d.len() == 0 {
        0
    } else {
        (dec_value(d.drop_last()) * 10 + (d.last() as int - '0' as int)) as nat
    }
}

/// What a run of numeric characters becomes: a number where it reads as
/// a `u64`, else a word.
pub open spec fn number_part(d: Seq<char>) -> Part {
    if d.len() > 0 && all_digits(d) && dec_value(d) <= u64::MAX {
        Part::Num(dec_value(d) as u64)
    } else {
        Part::Word(d)
    }
}

/// A run of digits is no longer than the text it starts.
pub proof fn lemma_numeric_run_le(s: Seq<char>)
    ensures
        numeric_run(s) <= s.len(),
    decreases s.len(),
{
    if s.len() > 0 {
        lemma_numeric_run_le(s.drop_first());
    }
}

/// A run of letters and digits is no longer than the text it starts.
pub proof fn lemma_alnum_run_le(s: Seq<char>)
    ensures
        alnum_run(s) <= s.len(),
    decreases s.len(),
{
    if s.len() > 0 {
        lemma_alnum_run_le(s.drop_first());
    }
}

/// The components of the text `s` (after the leading `v` is dropped).
pub open spec fn parse_parts(s: Seq<char>) -> Seq<Part>
    decreases s.len(),
{
    if s.len() == 0 {
        seq![]
    } else if !is_alnum(s[0]) {
        parse_parts(s.drop_first())
    } else if is_num(s[0]) {
        let n = numeric_run(s);
        proof {
            lemma_numeric_run_le(s);
        }
        if n == 0 {
            seq![]
        } else {
            seq![number_part(s.take(n as int))] + parse_parts(s.skip(n as int))
        }
    } else {
        let n = alnum_run(s);
        proof {
            lemma_alnum_run_le(s);
        }
        if n == 0 {
            seq![]
        } else {
            seq![Part::Word(s.take(n as int))] + parse_parts(s.skip(n as int))
        }
    }
}

/// The components of the version text `s`.
pub open spec fn version_parts(s: Seq<char>) -> Seq<Part> {
    parse_parts(version_body(s))
}

/// The words that mark a pre-release.
pub open spec fn is_pre_word(x: Seq<char>) -> bool {
    ||| x == seq!['a']
    ||| x == seq!['b']
    ||| x == seq!['c']
    ||| x == seq!['r', 'c']
    ||| x == seq!['p', 'r', 'e']
    ||| x == seq!['d', 'e', 'v']
    ||| x == seq!['d', 'i', 'r', 't', 'y']
}

/// A word that names a git revision (it starts with `g`).
pub open spec fn is_git_word(x: Seq<char>) -> bool {
    x.len() > 0 && x[0] == 'g'
}

/// Lexicographic order of words by code point, as `str` orders them.
pub open spec fn order_words(x: Seq<char>, y: Seq<char>) -> Order
    decreases x.len(),
{
    if x.len() == 0 && y.len() == 0 {
        Order::Equal
    } else if x.len() == 0 {
        Order::Less
    } else if y.len() == 0 {
        Order::Greater
    } else if (x[0] as int) < (y[0] as int) {
        Order::Less
    } else if (x[0] as int) > (y[0] as int) {
        Order::Greater
    } else {
        order_words(x.drop_first(), y.drop_first())
    }
}

/// The order of two numbers.
pub open spec fn order_nums(x: u64, y: u64) -> Order {
    if x < y {
        Order::Less
    } else if x > y {
        Order::Greater
    } else {
        Order::Equal
    }
}

/// The order of two components: numbers among themselves, words among
/// themselves, and any number above any word.
pub open spec fn order_part(a: Part, b: Part) -> Order {
    match (a, b) {
        (Part::Num(x), Part::Num(y)) => order_nums(x, y),
        (Part::Num(_), Part::Word(_)) => Order::Greater,
        (Part::Word(_), Part::Num(_)) => Order::Less,
        (Part::Word(x), Part::Word(y)) => order_words(x, y),
    }
}

/// How a version that has run out of components compares with one whose
/// next component is `b`.
pub open spec fn order_missing_vs(b: Part) -> Order {
    match b {
        Part::Num(_) => Order::Less,
        Part::Word(x) => if is_pre_word(x) {
            Order::Greater
        } else {
            Order::Less
        },
    }
}

/// How a version whose next component is `a` compares with one that has
/// run out of components.
pub open spec fn order_vs_missing(a: Part) -> Order {
    match a {
        Part::Num(_) => Order::Greater,
        Part::Word(x) => if is_pre_word(x) || is_git_word(x) {
            Order::Less
        } else {
            Order::Greater
        },
    }
}

/// The order of two versions given by their components.
pub open spec fn order_parts(a: Seq<Part>, b: Seq<Part>) -> Order
    decreases a.len(),
{
    if a.len() == 0 && b.len() == 0 {
        Order::Equal
    } else if a.len() == 0 {
        order_missing_vs(b[0])
    } else if b.len() == 0 {
        order_vs_missing(a[0])
    } else if order_part(a[0], b[0]) != Order::Equal {
        order_part(a[0], b[0])
    } else {
        order_parts(a.drop_first(), b.drop_first())
    }
}

/// The order of two version texts.
pub open spec fn version_order(a: Seq<char>, b: Seq<char>) -> Order {
    order_parts(version_parts(a), version_parts(b))
}

/// The other side of an order.
pub open spec fn flip(o: Order) -> Order {
    match o {
        Order::Less => Order::Greater,
        Order::Equal => Order::Equal,
        Order::Greater => Order::Less,
    }
}

/// `Ordering` for an `Order`.
pub open spec fn to_ordering(o: Order) -> Ordering {
    match o {
        Order::Less => Ordering::Less,
        Order::Equal => Ordering::Equal,
        Order::Greater => Ordering::Greater,
    }
}

proof fn lemma_dec_value_prefix(d: Seq<char>, m: int)
    requires
        all_digits(d),
        0 <= m <= d.len(),
    ensures
        dec_value(d.take(m)) <= dec_value(d),
    decreases d.len(),
{
    if m < d.len() {
        let p = d.drop_last();
        assert(all_digits(p));
        assert(p.take(m) =~= d.take(m));
        lemma_dec_value_prefix(p, m);
        let x = dec_value(p);
        assert('0' <= d[d.len() - 1] <= '9');
        assert(x <= x * 10) by (nonlinear_arith);
    } else {
        assert(d.take(m) =~= d);
    }
}

/// The value of the digits `v[from..to]` where they read as a `u64`.
pub(crate) fn read_u64(v: &Vec<char>, from: usize, to: usize) -> (r: Option<u64>)
    requires
        from < to <= v@.len(),
    ensures
        match r {
            Some(n) => number_part(v@.subrange(from as int, to as int)) == Part::Num(n),
            None => number_part(v@.subrange(from as int, to as int)) == Part::Word(
                v@.subrange(from as int, to as int),
            ),
        },
{
    let ghost d = v@.subrange(from as int, to as int);
    let mut val: u64 = 0;
    let mut k = from;
    while k < to
        invariant
            from <= k <= to <= v@.len(),
            d == v@.subrange(from as int, to as int),
            all_digits(v@.subrange(from as int, k as int)),
            val as nat == dec_value(v@.subrange(from as int, k as int)),
        decreases to - k,
    {
        let c = v[k];
        if !('0' <= c && c <= '9') {
            assert(d[k - from] == c);
            return None;
        }
        let digit: u64 = (c as u32 - '0' as u32) as u64;
        let ghost pre = v@.subrange(from as int, k as int);
        let ghost next = v@.subrange(from as int, k + 1);
        assert(next.drop_last() =~= pre);
        assert(all_digits(next));
        assert(dec_value(next) == dec_value(pre) * 10 + digit);
        match val.checked_mul(10) {
            Some(m) => {
                match m.checked_add(digit) {
                    Some(n) => {
                        val = n;
                    },
                    None => {
                        proof {
                            assert(next =~= d.take(k + 1 - from));
                            if all_digits(d) {
                                lemma_dec_value_prefix(d, k + 1 - from);
                            }
                        }
                        return None;
                    },
                }
            },
            None => {
                proof {
                    assert(dec_value(pre) * 10 > u64::MAX);
                    assert(next =~= d.take(k + 1 - from));
                    if all_digits(d) {
                        lemma_dec_value_prefix(d, k + 1 - from);
                    }
                }
                return None;
            },
        }
        k = k + 1;
    }
    assert(v@.subrange(from as int, k as int) =~= d);
    Some(val)
}

/// The end of the run of numeric characters of `v` that starts at `i`.
fn numeric_end(v: &Vec<char>, i: usize) -> (j: usize)
    requires
        i <= v@.len(),
    ensures
        i <= j <= v@.len(),
        j - i == numeric_run(v@.skip(i as int)),
{
    let mut j = i;
    while j < v.len() && char_is_numeric(v[j])
        invariant
            i <= j <= v@.len(),
            numeric_run(v@.skip(i as int)) == (j - i) + numeric_run(v@.skip(j as int)),
        decreases v.len() - j,
    {
        assert(v@.skip(j as int).drop_first() =~= v@.skip(j + 1));
        j = j + 1;
    }
    j
}

/// The end of the run of alphanumeric characters of `v` that starts at `i`.
fn alnum_end(v: &Vec<char>, i: usize) -> (j: usize)
    requires
        i <= v@.len(),
    ensures
        i <= j <= v@.len(),
        j - i == alnum_run(v@.skip(i as int)),
{
    let mut j = i;
    while j < v.len() && char_is_alphanumeric(v[j])
        invariant
            i <= j <= v@.len(),
            alnum_run(v@.skip(i as int)) == (j - i) + alnum_run(v@.skip(j as int)),
        decreases v.len() - j,
    {
        assert(v@.skip(j as int).drop_first() =~= v@.skip(j + 1));
        j = j + 1;
    }
    j
}

/// The components of the version text `s`.
pub fn components_of<'a>(s: &'a str) -> (r: Vec<Component<'a>>)
    ensures
        r@.map_values(|c: Component<'a>| c@) == version_parts(s@),
{
    let v = chars_of(s);
    let mut i: usize = if v.len() > 0 && v[0] == 'v' {
        1
    } else {
        0
    };
    assert(v@.skip(i as int) =~= version_body(s@));
    let mut r: Vec<Component<'a>> = Vec::new();
    while i < v.len()
        invariant
            v@ == s@,
            i <= v@.len(),
            r@.map_values(|c: Component<'a>| c@) + parse_parts(v@.skip(i as int)) == version_parts(
                s@,
            ),
        decreases v.len() - i,
    {
        let ghost rest = v@.skip(i as int);
        let ghost done = r@.map_values(|c: Component<'a>| c@);
        let c = v[i];
        if !char_is_alphanumeric(c) {
            assert(rest.drop_first() =~= v@.skip(i + 1));
            i = i + 1;
        } else if char_is_numeric(c) {
            let j = numeric_end(&v, i);
            assert(j > i);
            let word = s.substring_char(i, j);
            assert(rest.take((j - i) as int) =~= v@.subrange(i as int, j as int));
            assert(rest.skip((j - i) as int) =~= v@.skip(j as int));
            let comp = match read_u64(&v, i, j) {
                Some(n) => Component::Numeric(n),
                None => Component::String(word),
            };
            r.push(comp);
            assert(r@.map_values(|c: Component<'a>| c@) =~= done.push(comp@));
            assert(done.push(comp@) + parse_parts(v@.skip(j as int)) =~= done + parse_parts(rest));
            i = j;
        } else {
            let j = alnum_end(&v, i);
            assert(j > i);
            let word = s.substring_char(i, j);
            assert(rest.take((j - i) as int) =~= v@.subrange(i as int, j as int));
            assert(rest.skip((j - i) as int) =~= v@.skip(j as int));
            let comp = Component::String(word);
            r.push(comp);
            assert(r@.map_values(|c: Component<'a>| c@) =~= done.push(comp@));
            assert(done.push(comp@) + parse_parts(v@.skip(j as int)) =~= done + parse_parts(rest));
            i = j;
        }
    }
    assert(parse_parts(v@.skip(i as int)) =~= Seq::<Part>::empty());
    assert(r@.map_values(|c: Component<'a>| c@) + Seq::<Part>::empty() =~= r@.map_values(
        |c: Component<'a>| c@,
    ));
    r
}

/// Whether the word `x` marks a pre-release.
fn is_pre(x: &Vec<char>) -> (r: bool)
    ensures
        r == is_pre_word(x@),
{
    let n = x.len();
    if n == 1 {
        let c = x[0];
        if c == 'a' || c == 'b' || c == 'c' {
            assert(x@ =~= seq![c]);
            true
        } else {
            false
        }
    } else if n == 2 {
        if x[0] == 'r' && x[1] == 'c' {
            assert(x@ =~= seq!['r', 'c']);
            true
        } else {
            false
        }
    } else if n == 3 {
        if x[0] == 'p' && x[1] == 'r' && x[2] == 'e' {
            assert(x@ =~= seq!['p', 'r', 'e']);
            true
        } else if x[0] == 'd' && x[1] == 'e' && x[2] == 'v' {
            assert(x@ =~= seq!['d', 'e', 'v']);
            true
        } else {
            false
        }
    } else if n == 5 {
        if x[0] == 'd' && x[1] == 'i' && x[2] == 'r' && x[3] == 't' && x[4] == 'y' {
            assert(x@ =~= seq!['d', 'i', 'r', 't', 'y']);
            true
        } else {
            false
        }
    } else {
        false
    }
}

/// The order of the words `x` and `y`.
fn order_word_strs(x: &str, y: &str) -> (r: Order)
    ensures
        r == order_words(x@, y@),
{
    let xv = chars_of(x);
    let yv = chars_of(y);
    let mut i: usize = 0;
    assert(xv@.skip(0) =~= xv@);
    assert(yv@.skip(0) =~= yv@);
    loop
        invariant
            xv@ == x@,
            yv@ == y@,
            i <= xv@.len(),
            i <= yv@.len(),
            order_words(x@, y@) == order_words(xv@.skip(i as int), yv@.skip(i as int)),
        decreases xv.len() - i,
    {
        if i == xv.len() && i == yv.len() {
            return Order::Equal;
        }
        if i == xv.len() {
            return Order::Less;
        }
        if i == yv.len() {
            return Order::Greater;
        }
        let a = xv[i];
        let b = yv[i];
        if a < b {
            return Order::Less;
        }
        if a > b {
            return Order::Greater;
        }
        assert(xv@.skip(i as int).drop_first() =~= xv@.skip(i + 1));
        assert(yv@.skip(i as int).drop_first() =~= yv@.skip(i + 1));
        i = i + 1;
    }
}

/// The order of two components.
fn order_component(a: &Component, b: &Component) -> (r: Order)
    ensures
        r == order_part(a@, b@),
{
    match (a, b) {
        (Component::Numeric(x), Component::Numeric(y)) => {
            if *x < *y {
                Order::Less
            } else if *x > *y {
                Order::Greater
            } else {
                Order::Equal
            }
        },
        (Component::Numeric(_), Component::String(_)) => Order::Greater,
        (Component::String(_), Component::Numeric(_)) => Order::Less,
        (Component::String(x), Component::String(y)) => order_word_strs(x, y),
    }
}

/// How a version that has no more components compares with one whose next
/// component is `b`.
fn order_missing_vs_component(b: &Component) -> (r: Order)
    ensures
        r == order_missing_vs(b@),
{
    match b {
        Component::Numeric(_) => Order::Less,
        Component::String(x) => {
            let xv = chars_of(x);
            if is_pre(&xv) {
                Order::Greater
            } else {
                Order::Less
            }
        },
    }
}

/// How a version whose next component is `a` compares with one that has no
/// more components.
fn order_component_vs_missing(a: &Component) -> (r: Order)
    ensures
        r == order_vs_missing(a@),
{
    match a {
        Component::Numeric(_) => Order::Greater,
        Component::String(x) => {
            let xv = chars_of(x);
            if is_pre(&xv) || (xv.len() > 0 && xv[0] == 'g') {
                Order::Less
            } else {
                Order::Greater
            }
        },
    }
}

/// The order of the versions `a` and `b`.
pub fn compare_versions(a: &str, b: &str) -> (r: Order)
    ensures
        r == version_order(a@, b@),
{
    let ca = components_of(a);
    let cb = components_of(b);
    let ghost pa = version_parts(a@);
    let ghost pb = version_parts(b@);
    assert(pa.skip(0) =~= pa);
    assert(pb.skip(0) =~= pb);
    let mut i: usize = 0;
    loop
        invariant
            ca@.map_values(|c: Component| c@) == pa,
            cb@.map_values(|c: Component| c@) == pb,
            pa == version_parts(a@),
            pb == version_parts(b@),
            i <= ca@.len(),
            i <= cb@.len(),
            version_order(a@, b@) == order_parts(pa.skip(i as int), pb.skip(i as int)),
        decreases ca.len() - i,
    {
        if i == ca.len() && i == cb.len() {
            return Order::Equal;
        }
        if i == ca.len() {
            assert(pb.skip(i as int)[0] == cb@[i as int]@);
            return order_missing_vs_component(&cb[i]);
        }
        if i == cb.len() {
            assert(pa.skip(i as int)[0] == ca@[i as int]@);
            return order_component_vs_missing(&ca[i]);
        }
        assert(pa.skip(i as int)[0] == ca@[i as int]@);
        assert(pb.skip(i as int)[0] == cb@[i as int]@);
        let o = order_component(&ca[i], &cb[i]);
        match o {
            Order::Equal => {},
            _ => {
                return o;
            },
        }
        assert(pa.skip(i as int).drop_first() =~= pa.skip(i + 1));
        assert(pb.skip(i as int).drop_first() =~= pb.skip(i + 1));
        i = i + 1;
    }
}

impl<'a> Components<'a> {
    #[verifier::type_invariant]
    spec fn inv(&self) -> bool {
        self.pos <= self.items@.len()
    }

    /// The components not handed out yet.
    pub closed spec fn remaining(&self) -> Seq<Part> {
        self.items@.skip(self.pos as int).map_values(|c: Component<'a>| c@)
    }

    /// Hands out the next component, if any is left.
    pub fn next(&mut self) -> (r: Option<Component<'a>>)
        ensures
            old(self).remaining().len() == 0 ==> r is None && final(self).remaining()
                == old(self).remaining(),
            old(self).remaining().len() > 0 ==> r is Some && r->0@ == old(self).remaining()[0]
                && final(self).remaining() == old(self).remaining().drop_first(),
    {
        proof {
            use_type_invariant(&*self);
        }
        if self.pos < self.items.len() {
            let c = self.items[self.pos];
            proof {
                assert(self.items@.skip(self.pos as int).drop_first() =~= self.items@.skip(
                    self.pos + 1,
                ));
            }
            self.pos = self.pos + 1;
            proof {
                assert(self.items@.skip(self.pos as int).map_values(|c: Component<'a>| c@)
                    =~= old(self).remaining().drop_first());
            }
            Some(c)
        } else {
            None
        }
    }

    /// All the components not handed out yet.
    pub fn rest(self) -> (r: Vec<Component<'a>>)
        ensures
            r@.map_values(|c: Component<'a>| c@) == self.remaining(),
    {
        proof {
            use_type_invariant(&self);
        }
        let mut r: Vec<Component<'a>> = Vec::new();
        let mut i = self.pos;
        while i < self.items.len()
            invariant
                self.pos <= i <= self.items@.len(),
                r@ == self.items@.subrange(self.pos as int, i as int),
            decreases self.items.len() - i,
        {
            r.push(self.items[i]);
            i = i + 1;
            assert(r@ =~= self.items@.subrange(self.pos as int, i as int));
        }
        assert(r@.map_values(|c: Component<'a>| c@) =~= self.remaining());
        r
    }
}

impl<'a> Version<'a> {
    /// The components of the version, in order.
    pub fn iter(&self) -> (r: Components<'a>)
        ensures
            r.remaining() == version_parts(self.0@),
    {
        let items = components_of(self.0);
        let r = Components { items, pos: 0 };
        assert(r.items@.skip(0) =~= r.items@);
        r
    }
}

impl<'a> PartialEq for Version<'a> {
    fn eq(&self, other: &Version<'a>) -> (r: bool) {
        let a = chars_of(self.0);
        let b = chars_of(other.0);
        chars_eq(&a, &b)
    }
}

impl<'a> PartialEqSpecImpl for Version<'a> {
    open spec fn obeys_eq_spec() -> bool {
        true
    }

    open spec fn eq_spec(&self, other: &Version<'a>) -> bool {
        self.0@ == other.0@
    }
}

impl<'a> PartialOrd for Version<'a> {
    fn partial_cmp(&self, other: &Version<'a>) -> (r: Option<Ordering>) {
        match compare_versions(self.0, other.0) {
            Order::Less => Some(Ordering::Less),
            Order::Equal => Some(Ordering::Equal),
            Order::Greater => Some(Ordering::Greater),
        }
    }
}

impl<'a> PartialOrdSpecImpl for Version<'a> {
    open spec fn obeys_partial_cmp_spec() -> bool {
        true
    }

    open spec fn partial_cmp_spec(&self, other: &Version<'a>) -> Option<Ordering> {
        Some(to_ordering(version_order(self.0@, other.0@)))
    }
}

/// Whether comparing `a` with `b` runs past the end of `a` while `b` goes on
/// with a git revision word: the one case where the order is not
/// antisymmetric (both sides then compare as the lesser).
pub open spec fn runs_into_git_word(a: Seq<Part>, b: Seq<Part>) -> bool
    decreases a.len(),
{
    if a.len() == 0 {
        b.len() > 0 && match b[0] {
            Part::Word(x) => is_git_word(x) && !is_pre_word(x),
            Part::Num(_) => false,
        }
    } else if b.len() == 0 {
        false
    } else if order_part(a[0], b[0]) != Order::Equal {
        false
    } else {
        runs_into_git_word(a.drop_first(), b.drop_first())
    }
}

/// Whether the comparison of the version texts `a` and `b` meets a trailing
/// git revision word on one side only.
pub open spec fn git_word_clash(a: Seq<char>, b: Seq<char>) -> bool {
    runs_into_git_word(version_parts(a), version_parts(b)) || runs_into_git_word(
        version_parts(b),
        version_parts(a),
    )
}

proof fn lemma_words_refl(x: Seq<char>)
    ensures
        order_words(x, x) == Order::Equal,
    decreases x.len(),
{
    if x.len() > 0 {
        lemma_words_refl(x.drop_first());
    }
}

proof fn lemma_words_flip(x: Seq<char>, y: Seq<char>)
    ensures
        order_words(x, y) == flip(order_words(y, x)),
    decreases x.len(),
{
    if x.len() > 0 && y.len() > 0 {
        lemma_words_flip(x.drop_first(), y.drop_first());
    }
}

proof fn lemma_part_refl(p: Part)
    ensures
        order_part(p, p) == Order::Equal,
{
    if let Part::Word(x) = p {
        lemma_words_refl(x);
    }
}

proof fn lemma_part_flip(p: Part, q: Part)
    ensures
        order_part(p, q) == flip(order_part(q, p)),
{
    if let (Part::Word(x), Part::Word(y)) = (p, q) {
        lemma_words_flip(x, y);
    }
}

proof fn lemma_parts_refl(a: Seq<Part>)
    ensures
        order_parts(a, a) == Order::Equal,
    decreases a.len(),
{
    if a.len() > 0 {
        lemma_part_refl(a[0]);
        lemma_parts_refl(a.drop_first());
    }
}

proof fn lemma_parts_flip(a: Seq<Part>, b: Seq<Part>)
    requires
        !runs_into_git_word(a, b),
        !runs_into_git_word(b, a),
    ensures
        order_parts(a, b) == flip(order_parts(b, a)),
    decreases a.len(),
{
    if a.len() > 0 && b.len() > 0 {
        lemma_part_flip(a[0], b[0]);
        if order_part(a[0], b[0]) == Order::Equal {
            lemma_parts_flip(a.drop_first(), b.drop_first());
        }
    }
}

/// Every version compares equal to itself, so no version is less than
/// itself.
pub proof fn version_order_reflexive(a: Seq<char>)
    ensures
        version_order(a, a) == Order::Equal,
{
    lemma_parts_refl(version_parts(a));
}

/// Comparing `b` with `a` gives the opposite of comparing `a` with `b`,
/// unless one version is the other followed by a git revision word (such
/// as `1.0` and `1.0.gabc`), which the comparison puts below on both sides.
pub proof fn version_order_antisymmetric(a: Seq<char>, b: Seq<char>)
    requires
        !git_word_clash(a, b),
    ensures
        version_order(a, b) == flip(version_order(b, a)),
{
    lemma_parts_flip(version_parts(a), version_parts(b));
}

/// The error raised when the configuration asks for a newer vagga.
#[derive(Debug)]
pub struct MinimumVaggaError(pub String);

impl MinimumVaggaError {
    /// The text of the error as it is shown to the user.
    pub fn message(&self) -> (r: String)
        ensures
            r@ == "Minimum Vagga Error: "@ + self.0@,
    {
        concat("Minimum Vagga Error: ", self.0.as_str())
    }

    /// The reason of the error.
    pub fn reason(&self) -> (r: &String)
        ensures
            r == &self.0,
    {
        &self.0
    }
}

/// The check of the `minimum-vagga` setting of a configuration.
#[derive(Debug)]
pub struct MinimumVagga {
    pub optional: bool,
    pub current_version: Option<String>,
}

impl MinimumVagga {
    /// A check that requires the setting and knows no current version.
    pub fn new() -> (r: MinimumVagga)
        ensures
            !r.optional,
            r.current_version is None,
    {
        MinimumVagga { optional: false, current_version: None }
    }

    /// The same check, where the setting may be left out.
    pub fn optional(self) -> (r: MinimumVagga)
        ensures
            r.optional,
            r.current_version == self.current_version,
    {
        MinimumVagga { optional: true, current_version: self.current_version }
    }

    /// The same check against the running version `version`.
    pub fn current_version(self, version: String) -> (r: MinimumVagga)
        ensures
            r.optional == self.optional,
            r.current_version == Some(version),
    {
        MinimumVagga { optional: self.optional, current_version: Some(version) }
    }

    /// Whether a missing setting is accepted.
    pub fn accepts_missing(&self) -> (r: bool)
        ensures
            r == self.optional,
    {
        self.optional
    }

    /// Checks the required version `min_version`: it fails when the running
    /// version is known and is older.
    pub fn check(&self, min_version: &str) -> (r: Result<(), MinimumVaggaError>)
        ensures
            r is Err <==> (self.current_version is Some && version_order(
                min_version@,
                self.current_version->0@,
            ) == Order::Greater),
            r matches Err(e) ==> e.0@ == "Please upgrade vagga to at least "@ + debug_text(
                min_version@,
            ),
    {
        match &self.current_version {
            Some(cur) => {
                match compare_versions(min_version, cur.as_str()) {
                    Order::Greater => {
                        let quoted = debug_quote(min_version);
                        let msg = concat("Please upgrade vagga to at least ", quoted.as_str());
                        Err(MinimumVaggaError(msg))
                    },
                    _ => Ok(()),
                }
            },
            None => Ok(()),
        }
    }
}

impl Default for MinimumVagga {
    fn default() -> (r: MinimumVagga)
        ensures
            !r.optional,
            r.current_version is None,
    {
        MinimumVagga::new()
    }
}


proof fn lemma_common_prefix(p: Seq<Part>, s: Seq<Part>, t: Seq<Part>)
    ensures
        order_parts(p + s, p + t) == order_parts(s, t),
    decreases p.len(),
{
    if p.len() == 0 {
        assert(p + s =~= s);
        assert(p + t =~= t);
    } else {
        lemma_part_refl(p[0]);
        assert((p + s)[0] == p[0]);
        assert((p + t)[0] == p[0]);
        assert((p + s).drop_first() =~= p.drop_first() + s);
        assert((p + t).drop_first() =~= p.drop_first() + t);
        lemma_common_prefix(p.drop_first(), s, t);
    }
}

/// Two versions whose components agree up to some point are ordered by the
/// first components that differ: a number is above a word there (so
/// `0.4.1-28-g…` is above `0.4.1-rc1`), numbers go by their value, and a
/// version that stops where the other goes on with a number is below it
/// (so `1.0` is below `1.0.1`).
pub proof fn lemma_version_first_difference(
    p: Seq<Part>,
    n: u64,
    m: u64,
    w: Seq<char>,
    ra: Seq<Part>,
    rb: Seq<Part>,
)
    ensures
        order_parts(p + (seq![Part::Num(n)] + ra), p + (seq![Part::Word(w)] + rb)) == Order::Greater,
        order_parts(p + (seq![Part::Word(w)] + rb), p + (seq![Part::Num(n)] + ra)) == Order::Less,
        n < m ==> order_parts(p + (seq![Part::Num(n)] + ra), p + (seq![Part::Num(m)] + rb))
            == Order::Less,
        n < m ==> order_parts(p + (seq![Part::Num(m)] + rb), p + (seq![Part::Num(n)] + ra))
            == Order::Greater,
        order_parts(p, p + (seq![Part::Num(n)] + ra)) == Order::Less,
        order_parts(p + (seq![Part::Num(n)] + ra), p) == Order::Greater,
{
    let na = seq![Part::Num(n)] + ra;
    let wb = seq![Part::Word(w)] + rb;
    let mb = seq![Part::Num(m)] + rb;
    assert(na[0] == Part::Num(n));
    assert(wb[0] == Part::Word(w));
    assert(mb[0] == Part::Num(m));
    lemma_common_prefix(p, na, wb);
    lemma_common_prefix(p, wb, na);
    lemma_common_prefix(p, na, mb);
    lemma_common_prefix(p, mb, na);
    let e = Seq::<Part>::empty();
    assert(p + e =~= p);
    lemma_common_prefix(p, e, na);
    lemma_common_prefix(p, na, e);
}


proof fn lemma_words_common_prefix(x: Seq<char>, s: Seq<char>, t: Seq<char>)
    ensures
        order_words(x + s, x + t) == order_words(s, t),
    decreases x.len(),
{
    if x.len() == 0 {
        assert(x + s =~= s);
        assert(x + t =~= t);
    } else {
        assert((x + s).drop_first() =~= x.drop_first() + s);
        assert((x + t).drop_first() =~= x.drop_first() + t);
        lemma_words_common_prefix(x.drop_first(), s, t);
    }
}

/// Words are ordered as text: by the first character where they differ
/// (by code point), and a word is below any longer word it starts.
pub proof fn lemma_word_order(x: Seq<char>, c: char, d: char, a: Seq<char>, b: Seq<char>)
    ensures
        (c as u32) < (d as u32) ==> order_words(x + (seq![c] + a), x + (seq![d] + b)) == Order::Less,
        (c as u32) < (d as u32) ==> order_words(x + (seq![d] + b), x + (seq![c] + a))
            == Order::Greater,
        order_words(x, x + (seq![c] + a)) == Order::Less,
        order_words(x + (seq![c] + a), x) == Order::Greater,
{
    lemma_words_common_prefix(x, seq![c] + a, seq![d] + b);
    lemma_words_common_prefix(x, seq![d] + b, seq![c] + a);
    let e = Seq::<char>::empty();
    assert(x + e =~= x);
    lemma_words_common_prefix(x, e, seq![c] + a);
    lemma_words_common_prefix(x, seq![c] + a, e);
}

/// A version that stops where the other goes on with a word: a pre-release
/// word (`a`, `b`, `c`, `rc`, `pre`, `dev`, `dirty`) puts the longer one
/// below (`1.0rc1` is below `1.0`), and so does a git revision word (one
/// starting with `g`) on the longer side; any other word puts the longer one
/// above.
pub proof fn lemma_version_runs_out(p: Seq<Part>, w: Seq<char>, r: Seq<Part>)
    ensures
        ({
            let pre = w == seq!['a'] || w == seq!['b'] || w == seq!['c'] || w == seq!['r', 'c']
                || w == seq!['p', 'r', 'e'] || w == seq!['d', 'e', 'v'] || w == seq![
                'd',
                'i',
                'r',
                't',
                'y',
            ];
            let git = w.len() > 0 && w[0] == 'g';
            &&& pre ==> order_parts(p, p + (seq![Part::Word(w)] + r)) == Order::Greater
            &&& !pre ==> order_parts(p, p + (seq![Part::Word(w)] + r)) == Order::Less
            &&& (pre || git) ==> order_parts(p + (seq![Part::Word(w)] + r), p) == Order::Less
            &&& !(pre || git) ==> order_parts(p + (seq![Part::Word(w)] + r), p) == Order::Greater
        }),
{
    let wr = seq![Part::Word(w)] + r;
    assert(wr[0] == Part::Word(w));
    let e = Seq::<Part>::empty();
    assert(p + e =~= p);
    lemma_common_prefix(p, e, wr);
    lemma_common_prefix(p, wr, e);
}

} // verus!
