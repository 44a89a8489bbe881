use vstd::prelude::*;
use crate::text::{string_views, extend_strings};

verus! {

/// A value that a build step feeds into the hash that versions a container
/// (a JSON value is kept as its JSON text).
#[derive(Debug)]
pub enum HashValue {
    Text(String),
    Flag(bool),
    Number(u64),
    Texts(Vec<String>),
    Numbers(Vec<u32>),
    Json(String),
}

/// One thing fed into the version hash, after the method of the digest
/// that takes it: a named field; a named optional field; a named sequence;
/// a named boolean; a number as text; the name of a build step; a file by
/// its path and contents; the contents of a file; raw text; an unnamed
/// item.
#[derive(Debug)]
pub enum HashItem {
    Field(String, HashValue),
    OptField(String, Option<HashValue>),
    Sequence(String, Vec<String>),
    Bool(String, bool),
    Text(String, u32),
    Command(String),
    File(String),
    Stream(String),
    Input(String),
    Item(String),
}

/// A value fed into the version hash, as the specifications see it.
pub enum ValueView {
    Text(Seq<char>),
    Flag(bool),
    Number(u64),
    Texts(Seq<Seq<char>>),
    Numbers(Seq<u32>),
    Json(Seq<char>),
}

/// A thing fed into the version hash, as the specifications see it.
pub enum ItemView {
    Field(Seq<char>, ValueView),
    OptField(Seq<char>, Option<ValueView>),
    Sequence(Seq<char>, Seq<Seq<char>>),
    Bool(Seq<char>, bool),
    Text(Seq<char>, u32),
    Command(Seq<char>),
    File(Seq<char>),
    Stream(Seq<char>),
    Input(Seq<char>),
    Item(Seq<char>),
}

pub open spec fn value_view(v: HashValue) -> ValueView {
    match v {
        HashValue::Text(s) => ValueView::Text(s@),
        HashValue::Flag(b) => ValueView::Flag(b),
        HashValue::Number(n) => ValueView::Number(n),
        HashValue::Texts(v) => ValueView::Texts(string_views(v@)),
        HashValue::Numbers(v) => ValueView::Numbers(v@),
        HashValue::Json(t) => ValueView::Json(t@),
    }
}

pub open spec fn item_view(i: HashItem) -> ItemView {
    match i {
        HashItem::Field(n, v) => ItemView::Field(n@, value_view(v)),
        HashItem::OptField(n, v) => ItemView::OptField(
            n@,
            match v {
                Some(x) => Some(value_view(x)),
                None => None,
            },
        ),
        HashItem::Sequence(n, v) => ItemView::Sequence(n@, string_views(v@)),
        HashItem::Bool(n, b) => ItemView::Bool(n@, b),
        HashItem::Text(n, x) => ItemView::Text(n@, x),
        HashItem::Command(n) => ItemView::Command(n@),
        HashItem::File(p) => ItemView::File(p@),
        HashItem::Stream(p) => ItemView::Stream(p@),
        HashItem::Input(t) => ItemView::Input(t@),
        HashItem::Item(t) => ItemView::Item(t@),
    }
}

/// The views of the items `v`.
pub open spec fn items_view(v: Seq<HashItem>) -> Seq<ItemView> {
    v.map_values(|i: HashItem| item_view(i))
}

/// A named text field.
pub open spec fn text_item(name: Seq<char>, v: Seq<char>) -> ItemView {
    ItemView::Field(name, ValueView::Text(v))
}

/// A named flag field.
pub open spec fn flag_item(name: Seq<char>, b: bool) -> ItemView {
    ItemView::Field(name, ValueView::Flag(b))
}

/// A named field listing texts.
pub open spec fn texts_item(name: Seq<char>, v: Seq<String>) -> ItemView {
    ItemView::Field(name, ValueView::Texts(string_views(v)))
}

/// A named optional text field.
pub open spec fn opt_text_item(name: Seq<char>, v: Option<String>) -> ItemView {
    ItemView::OptField(
        name,
        match v {
            Some(s) => Some(ValueView::Text(s@)),
            None => None,
        },
    )
}

/// The text field `hash` with the checksum where one is given, else the
/// field `url` with the address: a download is versioned by its checksum
/// where it has one.
pub open spec fn source_item(url: String, sha256: Option<String>) -> ItemView {
    match sha256 {
        Some(s) => text_item("hash"@, s@),
        None => text_item("url"@, url@),
    }
}

/// What is fed into the hash that versions a container, in order.
pub struct VersionHash {
    items: Vec<HashItem>,
}

impl View for VersionHash {
    type V = Seq<ItemView>;

    closed spec fn view(&self) -> Seq<ItemView> {
        items_view(self.items@)
    }
}

impl VersionHash {
    /// A hash that nothing was fed into yet.
    pub fn new() -> (r: VersionHash)
        ensures
            r@ == Seq::<ItemView>::empty(),
    {
        let r = VersionHash { items: Vec::new() };
        assert(r@ =~= Seq::<ItemView>::empty());
        r
    }

    fn push_item(&mut self, x: HashItem)
        ensures
            final(self)@ == old(self)@.push(item_view(x)),
    {
        let ghost old_items = self.items@;
        let ghost xv = item_view(x);
        self.items.push(x);
        assert(items_view(self.items@) =~= items_view(old_items).push(xv));
    }

    /// The things fed in, in order.
    pub fn into_items(self) -> (r: Vec<HashItem>)
        ensures
            items_view(r@) == self@,
    {
        self.items
    }

    /// Feeds the text field `name`.
    pub fn field_text(&mut self, name: &str, v: &str)
        ensures
            final(self)@ == old(self)@.push(text_item(name@, v@)),
    {
        self.push_item(HashItem::Field(String::from_str(name), HashValue::Text(String::from_str(v))));
    }

    /// Feeds the field `name` with the JSON value whose text is `v`.
    pub fn field_json(&mut self, name: &str, v: &str)
        ensures
            final(self)@ == old(self)@.push(ItemView::Field(name@, ValueView::Json(v@))),
    {
        self.push_item(HashItem::Field(String::from_str(name), HashValue::Json(String::from_str(v))));
    }

    /// Feeds the flag field `name`.
    pub fn field_flag(&mut self, name: &str, b: bool)
        ensures
            final(self)@ == old(self)@.push(flag_item(name@, b)),
    {
        self.push_item(HashItem::Field(String::from_str(name), HashValue::Flag(b)));
    }

    /// Feeds the number field `name`.
    pub fn field_number(&mut self, name: &str, n: u64)
        ensures
            final(self)@ == old(self)@.push(ItemView::Field(name@, ValueView::Number(n))),
    {
        self.push_item(HashItem::Field(String::from_str(name), HashValue::Number(n)));
    }

    /// Feeds the field `name` listing the texts `v`.
    pub fn field_texts(&mut self, name: &str, v: &Vec<String>)
        ensures
            final(self)@ == old(self)@.push(texts_item(name@, v@)),
    {
        let mut c: Vec<String> = Vec::new();
        extend_strings(&mut c, v);
        assert(string_views(c@) =~= string_views(v@));
        self.push_item(HashItem::Field(String::from_str(name), HashValue::Texts(c)));
    }

    /// Feeds the field `name` listing the numbers `v`.
    pub fn field_numbers(&mut self, name: &str, v: &Vec<u32>)
        ensures
            final(self)@ == old(self)@.push(ItemView::Field(name@, ValueView::Numbers(v@))),
    {
        let c = v.clone();
        assert(c@ =~= v@);
        self.push_item(HashItem::Field(String::from_str(name), HashValue::Numbers(c)));
    }

    /// Feeds the optional text field `name`.
    pub fn opt_field_text(&mut self, name: &str, v: &Option<String>)
        ensures
            final(self)@ == old(self)@.push(opt_text_item(name@, *v)),
    {
        let x = match v {
            Some(s) => Some(HashValue::Text(String::from_str(s.as_str()))),
            None => None,
        };
        self.push_item(HashItem::OptField(String::from_str(name), x));
    }

    /// Feeds the optional number field `name`.
    pub fn opt_field_number(&mut self, name: &str, v: Option<u32>)
        ensures
            final(self)@ == old(self)@.push(
                ItemView::OptField(
                    name@,
                    match v {
                        Some(n) => Some(ValueView::Number(n as u64)),
                        None => None,
                    },
                ),
            ),
    {
        let x = match v {
            Some(n) => Some(HashValue::Number(n as u64)),
            None => None,
        };
        self.push_item(HashItem::OptField(String::from_str(name), x));
    }

    /// Feeds the optional flag field `name`.
    pub fn opt_field_flag(&mut self, name: &str, v: Option<bool>)
        ensures
            final(self)@ == old(self)@.push(
                ItemView::OptField(
                    name@,
                    match v {
                        Some(b) => Some(ValueView::Flag(b)),
                        None => None,
                    },
                ),
            ),
    {
        let x = match v {
            Some(b) => Some(HashValue::Flag(b)),
            None => None,
        };
        self.push_item(HashItem::OptField(String::from_str(name), x));
    }

    /// Feeds the sequence `name` of the texts `v`.
    pub fn sequence(&mut self, name: &str, v: &Vec<String>)
        ensures
            final(self)@ == old(self)@.push(ItemView::Sequence(name@, string_views(v@))),
    {
        let mut c: Vec<String> = Vec::new();
        extend_strings(&mut c, v);
        assert(string_views(c@) =~= string_views(v@));
        self.push_item(HashItem::Sequence(String::from_str(name), c));
    }

    /// Feeds the boolean `name`.
    pub fn bool_field(&mut self, name: &str, b: bool)
        ensures
            final(self)@ == old(self)@.push(ItemView::Bool(name@, b)),
    {
        self.push_item(HashItem::Bool(String::from_str(name), b));
    }

    /// Feeds the number `x` as the text `name`.
    pub fn text_number(&mut self, name: &str, x: u32)
        ensures
            final(self)@ == old(self)@.push(ItemView::Text(name@, x)),
    {
        self.push_item(HashItem::Text(String::from_str(name), x));
    }

    /// Feeds the name of a build step.
    pub fn command(&mut self, name: &str)
        ensures
            final(self)@ == old(self)@.push(ItemView::Command(name@)),
    {
        self.push_item(HashItem::Command(String::from_str(name)));
    }

    /// Feeds the file at `path`, by its name and contents.
    pub fn file(&mut self, path: &str)
        ensures
            final(self)@ == old(self)@.push(ItemView::File(path@)),
    {
        self.push_item(HashItem::File(String::from_str(path)));
    }

    /// Feeds the contents of the file at `path`.
    pub fn stream(&mut self, path: &str)
        ensures
            final(self)@ == old(self)@.push(ItemView::Stream(path@)),
    {
        self.push_item(HashItem::Stream(String::from_str(path)));
    }

    /// Feeds the unnamed item `t`.
    pub fn item(&mut self, t: &str)
        ensures
            final(self)@ == old(self)@.push(ItemView::Item(t@)),
    {
        self.push_item(HashItem::Item(String::from_str(t)));
    }

    /// Feeds the text `t` as it is.
    pub fn input(&mut self, t: &str)
        ensures
            final(self)@ == old(self)@.push(ItemView::Input(t@)),
    {
        self.push_item(HashItem::Input(String::from_str(t)));
    }
}

/// The fields `kname` and `vname` of each pair of `ps` in turn.
pub open spec fn pair_items(ps: Seq<(String, String)>, kname: Seq<char>, vname: Seq<char>) -> Seq<ItemView>
    decreases ps.len(),
{
    if ps.len() == 0 {
        seq![]
    } else {
        pair_items(ps.drop_last(), kname, vname) + seq![
            text_item(kname, ps.last().0@),
            text_item(vname, ps.last().1@),
        ]
    }
}

/// Feeds the fields `kname` and `vname` of each pair of `ps` in turn.
pub fn hash_pairs(h: &mut VersionHash, ps: &Vec<(String, String)>, kname: &str, vname: &str)
    ensures
        final(h)@ == old(h)@ + pair_items(ps@, kname@, vname@),
{
    let ghost h0 = h@;
    let mut i: usize = 0;
    assert(ps@.take(0) =~= seq![]);
    assert(h0 + pair_items(seq![], kname@, vname@) =~= h0);
    while i < ps.len()
        invariant
            i <= ps@.len(),
            h@ == h0 + pair_items(ps@.take(i as int), kname@, vname@),
        decreases ps.len() - i,
    {
        h.field_text(kname, ps[i].0.as_str());
        h.field_text(vname, ps[i].1.as_str());
        assert(ps@.take(i + 1).drop_last() =~= ps@.take(i as int));
        assert(ps@.take(i + 1).last() == ps@[i as int]);
        assert(h@ =~= h0 + pair_items(ps@.take(i + 1), kname@, vname@));
        i = i + 1;
    }
    assert(ps@.take(i as int) =~= ps@);
}

/// What one setup step of a container feeds into the version hash: its
/// name and the items of its own hash.
#[derive(Debug)]
pub struct SetupHash {
    pub name: String,
    pub items: Vec<HashItem>,
}

/// What versions the setup steps `ss` of a container: the name of each
/// step, then its items, in turn.
pub open spec fn setup_items(ss: Seq<SetupHash>) -> Seq<ItemView>
    decreases ss.len(),
{
    if ss.len() == 0 {
        seq![]
    } else {
        setup_items(ss.drop_last()) + seq![ItemView::Command(ss.last().name@)] + items_view(
            ss.last().items@,
        )
    }
}

impl VersionHash {
    /// Feeds the item `x` as it is.
    pub fn append_item(&mut self, x: &HashItem)
        ensures
            final(self)@ == old(self)@.push(item_view(*x)),
    {
        let y = copy_item(x);
        self.push_item(y);
    }
}

fn copy_value(v: &HashValue) -> (r: HashValue)
    ensures
        value_view(r) == value_view(*v),
{
    match v {
        HashValue::Text(s) => HashValue::Text(String::from_str(s.as_str())),
        HashValue::Flag(b) => HashValue::Flag(*b),
        HashValue::Number(n) => HashValue::Number(*n),
        HashValue::Texts(t) => {
            let mut c: Vec<String> = Vec::new();
            extend_strings(&mut c, t);
            assert(string_views(c@) =~= string_views(t@));
            HashValue::Texts(c)
        },
        HashValue::Numbers(n) => {
            let c = n.clone();
            assert(c@ =~= n@);
            HashValue::Numbers(c)
        },
        HashValue::Json(s) => HashValue::Json(String::from_str(s.as_str())),
    }
}

fn copy_item(x: &HashItem) -> (r: HashItem)
    ensures
        item_view(r) == item_view(*x),
{
    let t = |s: &String| -> (r: String)
        ensures
            r@ == s@,
        { String::from_str(s.as_str()) };
    match x {
        HashItem::Field(n, v) => HashItem::Field(t(n), copy_value(v)),
        HashItem::OptField(n, v) => HashItem::OptField(
            t(n),
            match v {
                Some(y) => Some(copy_value(y)),
                None => None,
            },
        ),
        HashItem::Sequence(n, v) => {
            let mut c: Vec<String> = Vec::new();
            extend_strings(&mut c, v);
            assert(string_views(c@) =~= string_views(v@));
            HashItem::Sequence(t(n), c)
        },
        HashItem::Bool(n, b) => HashItem::Bool(t(n), *b),
        HashItem::Text(n, y) => HashItem::Text(t(n), *y),
        HashItem::Command(n) => HashItem::Command(t(n)),
        HashItem::File(p) => HashItem::File(t(p)),
        HashItem::Stream(p) => HashItem::Stream(t(p)),
        HashItem::Input(p) => HashItem::Input(t(p)),
        HashItem::Item(p) => HashItem::Item(t(p)),
    }
}

/// Feeds what versions the setup steps `ss` into `h`.
pub fn hash_setup(h: &mut VersionHash, ss: &Vec<SetupHash>)
    ensures
        final(h)@ == old(h)@ + setup_items(ss@),
{
    let ghost h0 = h@;
    let mut i: usize = 0;
    assert(ss@.take(0) =~= seq![]);
    assert(h@ =~= h0 + setup_items(seq![]));
    while i < ss.len()
        invariant
            i <= ss@.len(),
            h@ == h0 + setup_items(ss@.take(i as int)),
        decreases ss.len() - i,
    {
        let ghost h1 = h@;
        h.command(ss[i].name.as_str());
        let ghost h2 = h@;
        let items = &ss[i].items;
        let mut j: usize = 0;
        assert(items@.take(0) =~= seq![]);
        assert(h@ =~= h2 + items_view(items@.take(0)));
        while j < items.len()
            invariant
                j <= items@.len(),
                h@ == h2 + items_view(items@.take(j as int)),
            decreases items.len() - j,
        {
            h.append_item(&items[j]);
            assert(items_view(items@.take(j + 1)) =~= items_view(items@.take(j as int)).push(
                item_view(items@[j as int]),
            ));
            assert(h@ =~= h2 + items_view(items@.take(j + 1)));
            j = j + 1;
        }
        assert(items@.take(j as int) =~= items@);
        assert(ss@.take(i + 1).drop_last() =~= ss@.take(i as int));
        assert(h@ =~= h0 + setup_items(ss@.take(i + 1)));
        i = i + 1;
    }
    assert(ss@.take(i as int) =~= ss@);
}

} // verus!
