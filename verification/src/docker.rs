use vstd::prelude::*;
use crate::versioning::{VersionHash, ItemView, ValueView, text_item};
use crate::text::{
    chars_of, concat, concat3, string_of, string_views, opt_text, has_prefix, same_text,
    contains_char, split_once_char, rsplit_once_char, split_once_spec, rsplit_once_spec, first_at, last_at,
    str_starts_with, ascii_text, byte_prefix, byte_prefix_of,
};

verus! {

/// The registry of images that name none.
pub const DEFAULT_REGISTRY_HOST: &'static str = "index.docker.io";

/// The namespace of official images.
pub const DEFAULT_IMAGE_NAMESPACE: &'static str = "library";

/// The tag of images that name none.
pub const DEFAULT_IMAGE_TAG: &'static str = "latest";

/// Where the layers of docker images are cached.
pub const DOCKER_LAYERS_CACHE_PATH: &'static str = "/vagga/cache/docker-layers";

/// The build step that unpacks a docker image.
#[derive(Debug)]
pub struct DockerImage {
    pub registry: String,
    pub image: String,
    pub tag: String,
    pub insecure: Option<bool>,
    pub path: String,
}

/// The first part of an image name is a registry: `localhost`, or a host
/// with a `.` or a port.
pub open spec fn is_registry(r: Seq<char>) -> bool {
    r == "localhost"@ || r.contains('.') || r.contains(':')
}

/// The registry that an image name names, if any.
pub open spec fn named_registry(v: Seq<char>) -> Option<Seq<char>> {
    match split_once_spec(v, '/') {
        Some((r, _)) => if is_registry(r) {
            Some(r)
        } else {
            None
        },
        None => None,
    }
}

/// The image name without its registry.
pub open spec fn without_registry(v: Seq<char>) -> Seq<char> {
    match split_once_spec(v, '/') {
        Some((r, i)) => if is_registry(r) {
            i
        } else {
            v
        },
        None => v,
    }
}

/// The tag that an image name names after its last `:`, if any.
pub open spec fn named_tag(v: Seq<char>) -> Option<Seq<char>> {
    match rsplit_once_spec(without_registry(v), ':') {
        Some((_, t)) => Some(t),
        None => None,
    }
}

/// The image that an image name names: without registry and tag, in the
/// `library` namespace where it names neither a namespace nor a registry.
pub open spec fn named_image(v: Seq<char>) -> Seq<char> {
    let i = without_registry(v);
    let j = match rsplit_once_spec(i, ':') {
        Some((x, _)) => x,
        None => i,
    };
    if !j.contains('/') && named_registry(v) is None {
        DEFAULT_IMAGE_NAMESPACE@ + "/"@ + j
    } else {
        j
    }
}

/// Whether `s` holds `c`.
fn has_char(s: &str, c: char) -> (r: bool)
    ensures
        r == s@.contains(c),
{
    let v = chars_of(s);
    let r = contains_char(&v, 0, v.len(), c);
    assert(v@.subrange(0, v@.len() as int) =~= v@);
    r
}

/// The image step that the short form `value` (such as
/// `registry.example.com/ns/image:tag` or `python:3`) names; the registry
/// and the tag take their defaults where it names none, and the image is
/// unpacked at the root.
pub fn parse_image(value: &str) -> (r: DockerImage)
    ensures
        r.registry@ == match named_registry(value@) {
            Some(x) => x,
            None => "index.docker.io"@,
        },
        r.tag@ == match named_tag(value@) {
            Some(x) => x,
            None => "latest"@,
        },
        r.image@ == named_image(value@),
        r.insecure is None,
        r.path@ == "/"@,
{
    proof {
        reveal_strlit("index.docker.io");
        reveal_strlit("latest");
    }
    let (rest, registry) = match split_once_char(value, '/') {
        Some((reg, img)) => {
            if same_text(reg.as_str(), "localhost") || has_char(reg.as_str(), '.') || has_char(
                reg.as_str(),
                ':',
            ) {
                (img, Some(reg))
            } else {
                (String::from_str(value), None)
            }
        },
        None => (String::from_str(value), None),
    };
    assert(rest@ == without_registry(value@));
    assert(opt_text(registry) == named_registry(value@));
    let (image, tag) = match rsplit_once_char(rest.as_str(), ':') {
        Some((img, t)) => (img, Some(t)),
        None => (rest, None),
    };
    assert(opt_text(tag) == named_tag(value@));
    let full = if !has_char(image.as_str(), '/') && registry.is_none() {
        concat3(DEFAULT_IMAGE_NAMESPACE, "/", image.as_str())
    } else {
        image
    };
    DockerImage {
        registry: match registry {
            Some(r) => r,
            None => String::from_str(DEFAULT_REGISTRY_HOST),
        },
        image: full,
        tag: match tag {
            Some(t) => t,
            None => String::from_str(DEFAULT_IMAGE_TAG),
        },
        insecure: None,
        path: String::from_str("/"),
    }
}

/// The host of a registry: the part before its port.
pub open spec fn registry_host(registry: Seq<char>) -> Seq<char> {
    match split_once_spec(registry, ':') {
        Some((h, _)) => h,
        None => registry,
    }
}

/// Whether `v` holds the text `x`.
fn holds_text(v: &Vec<String>, x: &str) -> (r: bool)
    ensures
        r == string_views(v@).contains(x@),
{
    let mut i: usize = 0;
    while i < v.len()
        invariant
            i <= v@.len(),
            forall|k: int| 0 <= k < i ==> v@[k]@ != x@,
        decreases v.len() - i,
    {
        if same_text(v[i].as_str(), x) {
            assert(string_views(v@)[i as int] == x@);
            return true;
        }
        i = i + 1;
    }
    assert(!string_views(v@).contains(x@)) by {
        if string_views(v@).contains(x@) {
            let k = choose|k: int| 0 <= k < string_views(v@).len() && string_views(v@)[k] == x@;
            assert(v@[k]@ == x@);
        }
    }
    false
}

/// Whether the settings list the host of `registry` among the registries
/// served without https.
pub fn is_insecure_registry(registry: &str, insecure_registries: &Vec<String>) -> (r: bool)
    ensures
        r == string_views(insecure_registries@).contains(registry_host(registry@)),
{
    match split_once_char(registry, ':') {
        Some((host, _port)) => holds_text(insecure_registries, host.as_str()),
        None => holds_text(insecure_registries, registry),
    }
}

/// The first value that `aliases` gives for `key`, if any.
pub open spec fn alias_in(aliases: Seq<(String, String)>, key: Seq<char>) -> Option<Seq<char>>
    decreases aliases.len(),
{
    if aliases.len() == 0 {
        None
    } else if aliases[0].0@ == key {
        Some(aliases[0].1@)
    } else {
        alias_in(aliases.drop_first(), key)
    }
}

/// The first value that `aliases` gives for `key`.
fn alias_lookup(aliases: &Vec<(String, String)>, key: &str) -> (r: Option<String>)
    ensures
        opt_text(r) == alias_in(aliases@, key@),
{
    let mut i: usize = 0;
    assert(aliases@.skip(0) =~= aliases@);
    while i < aliases.len()
        invariant
            i <= aliases@.len(),
            alias_in(aliases@, key@) == alias_in(aliases@.skip(i as int), key@),
        decreases aliases.len() - i,
    {
        let ghost rest = aliases@.skip(i as int);
        assert(rest[0] == aliases@[i as int]);
        if same_text(aliases[i].0.as_str(), key) {
            return Some(aliases[i].1.clone());
        }
        assert(rest.drop_first() =~= aliases@.skip(i + 1));
        i = i + 1;
    }
    assert(aliases@.skip(i as int) =~= Seq::<(String, String)>::empty());
    None
}

/// How an image is pulled: from which registry, under which name, and
/// whether without https.
#[derive(Debug)]
pub struct PullPlan {
    pub registry: String,
    pub image: String,
    pub insecure: bool,
}

impl DockerImage {
    /// How the image is pulled: from the registry that the settings'
    /// aliases give for its registry (or its own), under its name in the
    /// `library` namespace where it names none on the default registry,
    /// without https where the step says so or else where the settings list
    /// the registry's host.
    pub fn pull_plan(&self, aliases: &Vec<(String, String)>, insecure_registries: &Vec<String>) -> (r:
        PullPlan)
        ensures
            r.registry@ == match alias_in(aliases@, self.registry@) {
                Some(a) => a,
                None => self.registry@,
            },
            r.image@ == if r.registry@ == DEFAULT_REGISTRY_HOST@ && !self.image@.contains('/') {
                "library/"@ + self.image@
            } else {
                self.image@
            },
            r.insecure == match self.insecure {
                Some(b) => b,
                None => string_views(insecure_registries@).contains(registry_host(r.registry@)),
            },
    {
        let registry = match alias_lookup(aliases, self.registry.as_str()) {
            Some(a) => a,
            None => self.registry.clone(),
        };
        let image = if same_text(registry.as_str(), DEFAULT_REGISTRY_HOST) && !has_char(
            self.image.as_str(),
            '/',
        ) {
            concat("library/", self.image.as_str())
        } else {
            self.image.clone()
        };
        let insecure = match self.insecure {
            Some(b) => b,
            None => is_insecure_registry(registry.as_str(), insecure_registries),
        };
        PullPlan { registry, image, insecure }
    }
}

/// The files of a cached layer: the short digest shown while it is
/// fetched, the layer, the file it is fetched into, and its lock.
#[derive(Debug)]
pub struct BlobFiles {
    pub short_digest: String,
    pub blob: String,
    pub tmp: String,
    pub lock: String,
}

/// The digest of a layer digest such as `sha256:0123...`: the part after
/// its first `:`.
pub open spec fn digest_part(layer_digest: Seq<char>) -> Option<Seq<char>> {
    match split_once_spec(layer_digest, ':') {
        Some((_, d)) => Some(d),
        None => None,
    }
}

/// The message for a layer digest without `:`.
pub open spec fn digest_error(layer_digest: Seq<char>) -> Seq<char> {
    "Invalid layer digest: "@ + layer_digest
}

/// The files of the cached layer `layer_digest`, whose digest, where it has
/// one, has at least twelve bytes and a character that ends at the twelfth.
pub fn blob_files(layer_digest: &str) -> (r: Result<BlobFiles, String>)
    requires
        digest_part(layer_digest@) matches Some(d) ==> byte_prefix_of(d, 12) is Some,
    ensures
        r is Err <==> digest_part(layer_digest@) is None,
        r matches Err(e) ==> e@ == digest_error(layer_digest@),
        r matches Ok(f) ==> {
            let d = digest_part(layer_digest@)->0;
            &&& f.short_digest@ == byte_prefix_of(d, 12)->0
            &&& f.blob@ == DOCKER_LAYERS_CACHE_PATH@ + "/"@ + d + ".tar.gz"@
            &&& f.tmp@ == DOCKER_LAYERS_CACHE_PATH@ + "/."@ + d + ".tar.gz"@ + ".tmp"@
            &&& f.lock@ == DOCKER_LAYERS_CACHE_PATH@ + "/."@ + d + ".tar.gz"@ + ".lock"@
        },
{
    let digest = match split_once_char(layer_digest, ':') {
        Some((_, d)) => d,
        None => {
            return Err(concat("Invalid layer digest: ", layer_digest));
        },
    };
    let short = match byte_prefix(digest.as_str(), 12) {
        Some(p) => p,
        None => String::new(),
    };
    let name = concat(digest.as_str(), ".tar.gz");
    let blob = concat3(DOCKER_LAYERS_CACHE_PATH, "/", name.as_str());
    let mut tmp = concat3(DOCKER_LAYERS_CACHE_PATH, "/.", name.as_str());
    tmp.append(".tmp");
    let mut lock = concat3(DOCKER_LAYERS_CACHE_PATH, "/.", name.as_str());
    lock.append(".lock");
    Ok(BlobFiles { short_digest: short, blob, tmp, lock })
}

/// What unpacking a layer does with an entry besides unpacking it.
#[derive(Debug, PartialEq, Eq)]
pub enum Whiteout {
    /// Nothing: the entry is unpacked as it is.
    Keep,
    /// The entry marks its directory opaque: the directory is emptied.
    ClearDir,
    /// The entry removes the file of the given name from its directory.
    Remove(String),
}

/// What a whiteout entry of a docker layer does: one named `.wh..wh..opq`
/// empties its directory, one named `.wh.NAME` removes `NAME` beside it;
/// other entries, and entries that are not regular files, are kept.
pub open spec fn whiteout_action_of(file_name: Option<Seq<char>>, regular: bool) -> Option<
    Option<Seq<char>>,
> {
    match file_name {
        None => None,
        Some(n) => if !regular || !has_prefix(n, ".wh."@) {
            None
        } else if n.skip(4) == ".wh..opq"@ {
            Some(None)
        } else {
            Some(Some(n.skip(4)))
        },
    }
}

/// What unpacking a layer does with the entry whose file name is
/// `file_name` (none where the path has no name) and which is a regular
/// file where `regular`.
pub fn whiteout_action(file_name: Option<&str>, regular: bool) -> (r: Whiteout)
    ensures
        match whiteout_action_of(
            match file_name {
                Some(n) => Some(n@),
                None => None,
            },
            regular,
        ) {
            None => r == Whiteout::Keep,
            Some(None) => r == Whiteout::ClearDir,
            Some(Some(x)) => r matches Whiteout::Remove(y) && y@ == x,
        },
{
    let name = match file_name {
        Some(n) => n,
        None => {
            return Whiteout::Keep;
        },
    };
    if !regular || !str_starts_with(name, ".wh.") {
        return Whiteout::Keep;
    }
    proof {
        reveal_strlit(".wh.");
    }
    let v = chars_of(name);
    let rest = string_of(&v, 4, v.len());
    assert(rest@ =~= name@.skip(4));
    if same_text(rest.as_str(), ".wh..opq") {
        Whiteout::ClearDir
    } else {
        Whiteout::Remove(rest)
    }
}

impl DockerImage {
    /// What versions the step: the registry, image and tag, whether the registry is insecure, and the path.
    pub open spec fn hash_items(self) -> Seq<ItemView> {
        seq![
            text_item("registry"@, self.registry@),
            text_item("image"@, self.image@),
            text_item("tag"@, self.tag@),
            ItemView::OptField("insecure"@, match self.insecure { Some(b) => Some(ValueView::Flag(b)), None => None }),
            text_item("path"@, self.path@),
        ]
    }

    /// Feeds what versions the step into `h`.
    pub fn hash(&self, h: &mut VersionHash)
        ensures
            final(h)@ == old(h)@ + self.hash_items(),
    {
        let ghost h0 = h@;
        h.field_text("registry", self.registry.as_str());
        h.field_text("image", self.image.as_str());
        h.field_text("tag", self.tag.as_str());
        h.opt_field_flag("insecure", self.insecure);
        h.field_text("path", self.path.as_str());
        assert(h@ =~= h0 + self.hash_items());
    }
}


proof fn lemma_first_slash(ns: Seq<char>, rest: Seq<char>)
    requires
        !ns.contains('/'),
    ensures
        split_once_spec(ns + "/"@ + rest, '/') == Some((ns, rest)),
{
    reveal_strlit("/");
    let v = ns + "/"@ + rest;
    let k = ns.len() as int;
    assert(v[k] == '/');
    assert forall|j: int| 0 <= j < k implies v[j] != '/' by {
        assert(v[j] == ns[j]);
        if ns[j] == '/' {
            assert(ns.contains('/'));
        }
    }
    assert(first_at(v, '/', k));
    let c = choose|c: int| first_at(v, '/', c);
    if c < k {
        assert(v[c] == ns[c]);
        assert(ns.contains('/'));
    }
    assert(c == k);
    assert(v.take(k) =~= ns);
    assert(v.skip(k + 1) =~= rest);
}

proof fn lemma_no_char(s: Seq<char>, c: char)
    requires
        !s.contains(c),
    ensures
        split_once_spec(s, c) is None,
        rsplit_once_spec(s, c) is None,
{
    if exists|k: int| first_at(s, c, k) {
        let k = choose|k: int| first_at(s, c, k);
        assert(s.contains(c));
    }
    if exists|k: int| last_at(s, c, k) {
        let k = choose|k: int| last_at(s, c, k);
        assert(s.contains(c));
    }
}

proof fn lemma_last_colon(body: Seq<char>, tag: Seq<char>)
    requires
        !tag.contains(':'),
    ensures
        rsplit_once_spec(body + ":"@ + tag, ':') == Some((body, tag)),
{
    reveal_strlit(":");
    let v = body + ":"@ + tag;
    let k = body.len() as int;
    assert(v[k] == ':');
    assert forall|j: int| k < j < v.len() implies v[j] != ':' by {
        assert(v[j] == tag[j - k - 1]);
        if tag[j - k - 1] == ':' {
            assert(tag.contains(':'));
        }
    }
    assert(last_at(v, ':', k));
    let c = choose|c: int| last_at(v, ':', c);
    if c > k {
        assert(v[c] == tag[c - k - 1]);
        assert(tag.contains(':'));
    }
    assert(c == k);
    assert(v.take(k) =~= body);
    assert(v.skip(k + 1) =~= tag);
}

proof fn lemma_concat_lacks(a: Seq<char>, b: Seq<char>, c: char)
    requires
        !a.contains(c),
        !b.contains(c),
    ensures
        !(a + b).contains(c),
{
    if (a + b).contains(c) {
        let k = choose|k: int| 0 <= k < (a + b).len() && (a + b)[k] == c;
        if k < a.len() {
            assert(a[k] == c);
        } else {
            assert(b[k - a.len()] == c);
        }
    }
}

/// What an image name without a registry names (so `parse_image` gives it
/// the default registry): where it holds a namespace (`ns/name`, where `ns`
/// is neither `localhost` nor holds a `.` or a `:`) the image is that name
/// as written, and where it holds no `/` at all (`name`) it is the official
/// image `library/name`; either way without the tag after the last `:`.
pub proof fn lemma_image_namespace(ns: Seq<char>, name: Seq<char>, tag: Seq<char>)
    requires
        !ns.contains('/'),
        ns != "localhost"@,
        !ns.contains('.'),
        !ns.contains(':'),
        !name.contains(':'),
        !tag.contains(':'),
    ensures
        named_image(ns + "/"@ + name) == ns + "/"@ + name,
        named_image(ns + "/"@ + name + ":"@ + tag) == ns + "/"@ + name,
        named_registry(ns + "/"@ + name) is None,
        named_registry(ns + "/"@ + name + ":"@ + tag) is None,
        named_tag(ns + "/"@ + name) is None,
        named_tag(ns + "/"@ + name + ":"@ + tag) == Some(tag),
        named_image(ns) == "library/"@ + ns,
        !tag.contains('/') ==> named_image(ns + ":"@ + tag) == "library/"@ + ns,
        !tag.contains('/') ==> named_registry(ns + ":"@ + tag) is None,
{
    reveal_strlit("/");
    reveal_strlit(":");
    reveal_strlit("library");
    let base = ns + "/"@ + name;
    let full = ns + "/"@ + name + ":"@ + tag;
    lemma_first_slash(ns, name);
    assert(full =~= ns + "/"@ + (name + ":"@ + tag));
    lemma_first_slash(ns, name + ":"@ + tag);
    assert(!ns.contains(':'));
    assert(!"/"@.contains(':')) by {
        if "/"@.contains(':') {
            let k = choose|k: int| 0 <= k < "/"@.len() && "/"@[k] == ':';
        }
    }
    lemma_concat_lacks(ns, "/"@, ':');
    lemma_concat_lacks(ns + "/"@, name, ':');
    lemma_no_char(base, ':');
    lemma_last_colon(base, tag);
    assert(base[ns.len() as int] == '/');
    assert(base.contains('/'));
    lemma_no_char(ns, '/');
    lemma_no_char(ns, ':');
    reveal_strlit("library/");
    assert(DEFAULT_IMAGE_NAMESPACE@ + "/"@ =~= "library/"@);
    if !tag.contains('/') {
        lemma_last_colon(ns, tag);
        assert(!":"@.contains('/')) by {
            if ":"@.contains('/') {
                let k = choose|k: int| 0 <= k < ":"@.len() && ":"@[k] == '/';
            }
        }
        lemma_concat_lacks(ns, ":"@, '/');
        lemma_concat_lacks(ns + ":"@, tag, '/');
        lemma_no_char(ns + ":"@ + tag, '/');
    }
}


/// An image name whose first part is a registry (`localhost`, or a host
/// with a `.` or a port) names that registry, and the image is the rest
/// without its tag, as written (no namespace is added, even where it holds
/// no `/`).
pub proof fn lemma_image_with_registry(reg: Seq<char>, name: Seq<char>, tag: Seq<char>)
    requires
        !reg.contains('/'),
        reg == "localhost"@ || reg.contains('.') || reg.contains(':'),
        !name.contains(':'),
        !tag.contains(':'),
    ensures
        named_registry(reg + "/"@ + name) == Some(reg),
        named_registry(reg + "/"@ + name + ":"@ + tag) == Some(reg),
        named_image(reg + "/"@ + name) == name,
        named_image(reg + "/"@ + name + ":"@ + tag) == name,
        named_tag(reg + "/"@ + name) is None,
        named_tag(reg + "/"@ + name + ":"@ + tag) == Some(tag),
{
    reveal_strlit("/");
    reveal_strlit(":");
    let full = reg + "/"@ + name + ":"@ + tag;
    lemma_first_slash(reg, name);
    assert(full =~= reg + "/"@ + (name + ":"@ + tag));
    lemma_first_slash(reg, name + ":"@ + tag);
    lemma_no_char(name, ':');
    lemma_last_colon(name, tag);
}

} // verus!
