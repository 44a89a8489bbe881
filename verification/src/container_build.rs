use vstd::prelude::*;
use crate::assoc::{text_entries, text_seq};
use crate::paths::{join_path, path_join};
use crate::text::{concat, concat3, decimal, decimal_of, string_views, extend_strings};

verus! {

/// A container as the builder scripts build it: its short and full names,
/// the builder, the builder's parameters (in key order), the ranges of user
/// and group ids mapped into it (each `(start, end)`), its provisioning
/// script, and the shell that runs that script.
#[derive(Debug)]
pub struct ScriptContainer {
    pub name: String,
    pub fullname: String,
    pub builder: String,
    pub parameters: Vec<(String, String)>,
    pub uids: Vec<(u32, u32)>,
    pub gids: Vec<(u32, u32)>,
    pub provision: Option<String>,
    pub shell: Vec<String>,
}

/// The search path of the builder where the caller has none.
pub const DEFAULT_BUILDER_PATH: &'static str = "/sbin:/bin:/usr/sbin:/usr/bin:/usr/local/bin:/usr/local/sbin";

/// The search path of the builder: the caller's, or the default one.
pub fn builder_path(caller_path: &Option<String>) -> (r: String)
    ensures
        r@ == match caller_path {
            Some(p) => p@,
            None => DEFAULT_BUILDER_PATH@,
        },
{
    match caller_path {
        Some(p) => String::from_str(p.as_str()),
        None => String::from_str(DEFAULT_BUILDER_PATH),
    }
}

/// The cache directory of the builder `builder`.
pub fn builder_cache_dir(local_vagga: &str, builder: &str) -> (r: String)
    ensures
        r@ == join_path(join_path(local_vagga@, ".cache"@), builder@),
{
    let c = path_join(local_vagga, ".cache");
    path_join(c.as_str(), builder)
}

/// The pairs `ps` with `prefix` before each name.
pub open spec fn prefixed(ps: Seq<(Seq<char>, Seq<char>)>, prefix: Seq<char>) -> Seq<(Seq<char>, Seq<char>)> {
    ps.map_values(|p: (Seq<char>, Seq<char>)| (prefix + p.0, p.1))
}

/// Appends the pairs `ps` to `out`, with `prefix` before each name.
fn push_prefixed(out: &mut Vec<(String, String)>, ps: &Vec<(String, String)>, prefix: &str)
    ensures
        text_entries(final(out)@) == text_entries(old(out)@) + prefixed(text_entries(ps@), prefix@),
{
    let ghost o0 = text_entries(out@);
    let ghost t = text_entries(ps@);
    let ghost f = |p: (Seq<char>, Seq<char>)| (prefix@ + p.0, p.1);
    let mut i: usize = 0;
    assert(t.take(0).map_values(f) =~= seq![]);
    assert(text_entries(out@) =~= o0 + t.take(0).map_values(f));
    while i < ps.len()
        invariant
            i <= ps@.len(),
            t == text_entries(ps@),
            f == (|p: (Seq<char>, Seq<char>)| (prefix@ + p.0, p.1)),
            text_entries(out@) == o0 + t.take(i as int).map_values(f),
        decreases ps.len() - i,
    {
        let ghost before = text_entries(out@);
        let k = concat(prefix, ps[i].0.as_str());
        let v = String::from_str(ps[i].1.as_str());
        let ghost kv = (k@, v@);
        out.push((k, v));
        assert(text_entries(out@) =~= before.push(kv));
        assert(t[i as int] == (ps@[i as int].0@, ps@[i as int].1@));
        assert(t.take(i + 1).map_values(f) =~= t.take(i as int).map_values(f).push(f(t[i as int])));
        i = i + 1;
    }
    assert(t.take(i as int) =~= t);
}

/// The environment of the builder scripts of `c`: a home that is nowhere,
/// the search path, the names of the container, the builder's cache, the
/// project's root, the caller's environment `caller` with each name after
/// `CALLER_`, and the builder's parameters with each name after the
/// builder's name and `_`.
pub open spec fn builder_environ_of(
    c: ScriptContainer,
    path: Seq<char>,
    cache_dir: Seq<char>,
    project_root: Seq<char>,
    caller: Seq<(Seq<char>, Seq<char>)>,
) -> Seq<(Seq<char>, Seq<char>)> {
    seq![
        ("HOME"@, "/homeless-shelter"@),
        ("PATH"@, path),
        ("container_name"@, c.name@),
        ("container_fullname"@, c.fullname@),
        ("cache_dir"@, cache_dir),
        ("project_root"@, project_root),
    ] + prefixed(caller, "CALLER_"@) + prefixed(text_entries(c.parameters@), c.builder@ + "_"@)
}

impl ScriptContainer {
    /// The environment of the builder scripts.
    pub fn builder_environ(
        &self,
        path: &str,
        cache_dir: &str,
        project_root: &str,
        caller: &Vec<(String, String)>,
    ) -> (r: Vec<(String, String)>)
        ensures
            text_entries(r@) == builder_environ_of(
                *self,
                path@,
                cache_dir@,
                project_root@,
                text_entries(caller@),
            ),
    {
        let mut r: Vec<(String, String)> = vec![
            (String::from_str("HOME"), String::from_str("/homeless-shelter")),
            (String::from_str("PATH"), String::from_str(path)),
            (String::from_str("container_name"), String::from_str(self.name.as_str())),
            (String::from_str("container_fullname"), String::from_str(self.fullname.as_str())),
            (String::from_str("cache_dir"), String::from_str(cache_dir)),
            (String::from_str("project_root"), String::from_str(project_root)),
        ];
        assert(text_entries(r@) =~= seq![
            ("HOME"@, "/homeless-shelter"@),
            ("PATH"@, path@),
            ("container_name"@, self.name@),
            ("container_fullname"@, self.fullname@),
            ("cache_dir"@, cache_dir@),
            ("project_root"@, project_root@),
        ]);
        push_prefixed(&mut r, caller, "CALLER_");
        let prefix = concat(self.builder.as_str(), "_");
        push_prefixed(&mut r, &self.parameters, prefix.as_str());
        r
    }
}

/// The text that versions a container whose builder has no `version.sh`:
/// the builder's name and `:`, then each parameter as `name=value;`.
pub open spec fn primitive_version_of(builder: Seq<char>, ps: Seq<(Seq<char>, Seq<char>)>) -> Seq<char>
    decreases ps.len(),
{
    if ps.len() == 0 {
        builder + ":"@
    } else {
        primitive_version_of(builder, ps.drop_last()) + ps.last().0 + "="@ + ps.last().1 + ";"@
    }
}

impl ScriptContainer {
    /// The text that versions the container where its builder has no
    /// `version.sh`.
    pub fn primitive_version(&self) -> (r: String)
        ensures
            r@ == primitive_version_of(self.builder@, text_entries(self.parameters@)),
    {
        let ghost t = text_entries(self.parameters@);
        let mut r = concat(self.builder.as_str(), ":");
        let mut i: usize = 0;
        assert(t.take(0) =~= seq![]);
        while i < self.parameters.len()
            invariant
                i <= self.parameters@.len(),
                t == text_entries(self.parameters@),
                r@ == primitive_version_of(self.builder@, t.take(i as int)),
            decreases self.parameters.len() - i,
        {
            let a = concat3(r.as_str(), self.parameters[i].0.as_str(), "=");
            let b = concat3(a.as_str(), self.parameters[i].1.as_str(), ";");
            r = b;
            assert(t.take(i + 1).drop_last() =~= t.take(i as int));
            assert(t.take(i + 1).last() == (self.parameters@[i as int].0@, self.parameters@[i as int].1@));
            i = i + 1;
        }
        assert(t.take(i as int) =~= t);
        r
    }
}

/// The ranges `rs` written as `start-end`, joined with commas.
pub open spec fn ranges_text(rs: Seq<(u32, u32)>) -> Seq<char>
    decreases rs.len(),
{
    if rs.len() == 0 {
        seq![]
    } else if rs.len() == 1 {
        decimal_of(rs[0].0 as nat) + "-"@ + decimal_of(rs[0].1 as nat)
    } else {
        ranges_text(rs.drop_last()) + ","@ + decimal_of(rs.last().0 as nat) + "-"@ + decimal_of(
            rs.last().1 as nat,
        )
    }
}

/// The ranges `rs` as the user namespace tools take them.
pub fn format_ranges(rs: &Vec<(u32, u32)>) -> (r: String)
    ensures
        r@ == ranges_text(rs@),
{
    let mut r = String::new();
    let mut i: usize = 0;
    assert(rs@.take(0) =~= seq![]);
    assert(r@ =~= ranges_text(seq![]));
    while i < rs.len()
        invariant
            i <= rs@.len(),
            r@ == ranges_text(rs@.take(i as int)),
        decreases rs.len() - i,
    {
        let s = decimal(rs[i].0);
        let e = decimal(rs[i].1);
        let piece = concat3(s.as_str(), "-", e.as_str());
        if i == 0 {
            r = piece;
        } else {
            r = concat3(r.as_str(), ",", piece.as_str());
        }
        assert(rs@.take(i + 1).drop_last() =~= rs@.take(i as int));
        assert(rs@.take(i + 1).last() == rs@[i as int]);
        assert(i == 0 ==> rs@.take(i + 1)[0] == rs@[0]);
        i = i + 1;
    }
    assert(rs@.take(i as int) =~= rs@);
    r
}

/// The options that map the id ranges `uids` and `gids` into a user
/// namespace, each left out where it has no range.
pub open spec fn range_options(uids: Seq<(u32, u32)>, gids: Seq<(u32, u32)>) -> Seq<Seq<char>> {
    (if uids.len() > 0 {
        seq!["--uid-ranges"@, ranges_text(uids)]
    } else {
        seq![]
    }) + (if gids.len() > 0 {
        seq!["--gid-ranges"@, ranges_text(gids)]
    } else {
        seq![]
    })
}

impl ScriptContainer {
    fn push_range_options(&self, args: &mut Vec<String>)
        ensures
            string_views(final(args)@) == string_views(old(args)@) + range_options(
                self.uids@,
                self.gids@,
            ),
    {
        let ghost a0 = string_views(args@);
        if self.uids.len() > 0 {
            args.push(String::from_str("--uid-ranges"));
            args.push(format_ranges(&self.uids));
        }
        let ghost a1 = string_views(args@);
        if self.gids.len() > 0 {
            args.push(String::from_str("--gid-ranges"));
            args.push(format_ranges(&self.gids));
        }
        assert(string_views(args@) =~= a0 + range_options(self.uids@, self.gids@));
    }

    /// The arguments of vagga that run the builder script `build_sh` in a
    /// user namespace.
    pub fn build_args(&self, build_sh: &str) -> (r: Vec<String>)
        ensures
            string_views(r@) == seq!["_userns"@] + range_options(self.uids@, self.gids@) + seq![
                build_sh@,
            ],
    {
        let mut r = vec![String::from_str("_userns")];
        assert(string_views(r@) =~= seq!["_userns"@]);
        self.push_range_options(&mut r);
        let ghost r0 = string_views(r@);
        r.push(String::from_str(build_sh));
        assert(string_views(r@) =~= r0.push(build_sh@));
        r
    }

    /// The arguments of vagga that run the provisioning script `script` in
    /// the new root `root` with the container's shell.
    pub fn provision_args(&self, root: &str, script: &str) -> (r: Vec<String>)
        ensures
            string_views(r@) == seq![
                "_chroot"@,
                "--writeable"@,
                "--inventory"@,
                "--force-user-namespace"@,
            ] + range_options(self.uids@, self.gids@) + seq![root@] + string_views(self.shell@)
                + seq![script@],
    {
        let mut r = vec![
            String::from_str("_chroot"),
            String::from_str("--writeable"),
            String::from_str("--inventory"),
            String::from_str("--force-user-namespace"),
        ];
        assert(string_views(r@) =~= seq![
            "_chroot"@,
            "--writeable"@,
            "--inventory"@,
            "--force-user-namespace"@,
        ]);
        self.push_range_options(&mut r);
        let ghost r0 = string_views(r@);
        r.push(String::from_str(root));
        assert(string_views(r@) =~= r0.push(root@));
        extend_strings(&mut r, &self.shell);
        let ghost r1 = string_views(r@);
        r.push(String::from_str(script));
        assert(string_views(r@) =~= r1.push(script@));
        r
    }
}

/// The directories of a build of the container `fullname` at the version
/// `hash`: the image, the image while it is built, the artifacts, and where
/// the image it replaces goes.
#[derive(Debug)]
pub struct RootDirs {
    pub root: String,
    pub tmp: String,
    pub artifacts: String,
    pub old: String,
}

/// The directories of a build of the container `fullname` at the version
/// `hash` in `local_vagga`.
pub fn root_dirs(local_vagga: &str, fullname: &str, hash: &str) -> (r: RootDirs)
    ensures
        r.root@ == join_path(join_path(local_vagga@, ".roots"@), fullname@ + "."@ + hash@),
        r.tmp@ == join_path(join_path(local_vagga@, ".roots"@), fullname@ + "."@ + hash@ + ".tmp"@),
        r.artifacts@ == join_path(join_path(local_vagga@, ".artifacts"@), fullname@ + "."@ + hash@),
        r.old@ == join_path(join_path(local_vagga@, ".roots"@), fullname@ + "."@ + hash@ + ".old"@),
{
    let cdir = concat3(fullname, ".", hash);
    let roots = path_join(local_vagga, ".roots");
    let arts = path_join(local_vagga, ".artifacts");
    let tmp = concat(cdir.as_str(), ".tmp");
    let old = concat(cdir.as_str(), ".old");
    RootDirs {
        root: path_join(roots.as_str(), cdir.as_str()),
        tmp: path_join(roots.as_str(), tmp.as_str()),
        artifacts: path_join(arts.as_str(), cdir.as_str()),
        old: path_join(roots.as_str(), old.as_str()),
    }
}

/// The variables that the builder script gets besides the environment of
/// the builder: vagga itself and its inventory, the artifacts, the version,
/// the root being built, the mark of a build, and the caller's log filter
/// where it has one.
pub open spec fn build_environ_of(
    vagga_exe: Seq<char>,
    inventory: Seq<char>,
    artifacts: Seq<char>,
    hash: Seq<char>,
    tmp_root: Seq<char>,
    rust_log: Option<Seq<char>>,
) -> Seq<(Seq<char>, Seq<char>)> {
    seq![
        ("vagga_exe"@, vagga_exe),
        ("vagga_inventory"@, inventory),
        ("artifacts_dir"@, artifacts),
        ("container_hash"@, hash),
        ("container_root"@, tmp_root),
        ("VAGGA_IN_BUILD"@, "1"@),
    ] + match rust_log {
        Some(l) => seq![("RUST_LOG"@, l)],
        None => seq![],
    }
}

/// Appends the pair `(k, v)` to `env`.
fn push_pair(env: &mut Vec<(String, String)>, k: &str, v: &str)
    ensures
        text_entries(final(env)@) == text_entries(old(env)@).push((k@, v@)),
{
    let ghost e0 = text_entries(env@);
    env.push((String::from_str(k), String::from_str(v)));
    assert(text_entries(env@) =~= e0.push((k@, v@)));
}

/// Appends to the builder's environment `env` what the builder script gets
/// besides it.
pub fn add_build_environ(
    env: &mut Vec<(String, String)>,
    vagga_exe: &str,
    inventory: &str,
    dirs: &RootDirs,
    hash: &str,
    rust_log: &Option<String>,
)
    ensures
        text_entries(final(env)@) == text_entries(old(env)@) + build_environ_of(
            vagga_exe@,
            inventory@,
            dirs.artifacts@,
            hash@,
            dirs.tmp@,
            match rust_log {
                Some(l) => Some(l@),
                None => None,
            },
        ),
{
    let ghost e0 = text_entries(env@);
    push_pair(env, "vagga_exe", vagga_exe);
    push_pair(env, "vagga_inventory", inventory);
    push_pair(env, "artifacts_dir", dirs.artifacts.as_str());
    push_pair(env, "container_hash", hash);
    push_pair(env, "container_root", dirs.tmp.as_str());
    push_pair(env, "VAGGA_IN_BUILD", "1");
    let ghost e1 = text_entries(env@);
    match rust_log {
        Some(l) => push_pair(env, "RUST_LOG", l.as_str()),
        None => {},
    }
    assert(text_entries(env@) =~= e0 + build_environ_of(
        vagga_exe@,
        inventory@,
        dirs.artifacts@,
        hash@,
        dirs.tmp@,
        match rust_log {
            Some(l) => Some(l@),
            None => None,
        },
    ));
}

/// The directories that every built image has, below its root.
pub open spec fn image_dirs() -> Seq<Seq<char>> {
    seq!["proc"@, "sys"@, "dev"@, "work"@, "tmp"@, "etc"@]
}

/// The directories that a new image at `root` must have.
pub fn image_dirs_in(root: &str) -> (r: Vec<String>)
    ensures
        string_views(r@) == image_dirs().map_values(|d: Seq<char>| join_path(root@, d)),
{
    let r = vec![
        path_join(root, "proc"),
        path_join(root, "sys"),
        path_join(root, "dev"),
        path_join(root, "work"),
        path_join(root, "tmp"),
        path_join(root, "etc"),
    ];
    assert(string_views(r@) =~= image_dirs().map_values(|d: Seq<char>| join_path(root@, d)));
    r
}

/// The version of a container: the first seven digits of the digest
/// `full`.
pub fn short_hash(full: &str) -> (r: String)
    requires
        full@.len() >= 7,
    ensures
        r@ == full@.take(7),
{
    let v = crate::text::chars_of(full);
    crate::text::string_of(&v, 0, 7)
}

/// A piece of what the digest that versions a container takes in: a text,
/// a number, or what the builder's `version.sh` printed.
#[derive(Debug)]
pub enum VersionPiece {
    Text(String),
    Number(u64),
    ScriptOutput,
}

/// A piece as the specifications see it.
pub enum PieceView {
    Text(Seq<char>),
    Number(u64),
    ScriptOutput,
}

pub open spec fn piece_view(p: VersionPiece) -> PieceView {
    match p {
        VersionPiece::Text(t) => PieceView::Text(t@),
        VersionPiece::Number(n) => PieceView::Number(n),
        VersionPiece::ScriptOutput => PieceView::ScriptOutput,
    }
}

/// The bounds of the ranges `rs`, each range's start then its end.
pub open spec fn range_pieces(rs: Seq<(u32, u32)>) -> Seq<PieceView>
    decreases rs.len(),
{
    if rs.len() == 0 {
        seq![]
    } else {
        range_pieces(rs.drop_last()) + seq![
            PieceView::Number(rs.last().0 as u64),
            PieceView::Number(rs.last().1 as u64),
        ]
    }
}

/// What the digest that versions the container `c` takes in, in order: the
/// output of the builder's `version.sh` after the builder's name and `:`
/// where the builder has that script, else the text of
/// `primitive_version_of`; then the user id ranges after `uids:` and the
/// group id ranges after `gids:`, where there are any; then the
/// provisioning script, where there is one.
pub open spec fn version_pieces_of(c: ScriptContainer, has_version_sh: bool) -> Seq<PieceView> {
    (if has_version_sh {
        seq![PieceView::Text(c.builder@), PieceView::Text(":"@), PieceView::ScriptOutput]
    } else {
        seq![PieceView::Text(primitive_version_of(c.builder@, text_entries(c.parameters@)))]
    }) + (if c.uids@.len() > 0 {
        seq![PieceView::Text("uids:"@)] + range_pieces(c.uids@)
    } else {
        seq![]
    }) + (if c.gids@.len() > 0 {
        seq![PieceView::Text("gids:"@)] + range_pieces(c.gids@)
    } else {
        seq![]
    }) + match c.provision {
        Some(p) => seq![PieceView::Text(p@)],
        None => seq![],
    }
}

fn push_piece(out: &mut Vec<VersionPiece>, p: VersionPiece)
    ensures
        final(out)@.map_values(|x: VersionPiece| piece_view(x)) == old(out)@.map_values(
            |x: VersionPiece| piece_view(x),
        ).push(piece_view(p)),
{
    let ghost o0 = out@;
    let ghost pv = piece_view(p);
    out.push(p);
    assert(out@.map_values(|x: VersionPiece| piece_view(x)) =~= o0.map_values(
        |x: VersionPiece| piece_view(x),
    ).push(pv));
}

fn push_ranges(out: &mut Vec<VersionPiece>, rs: &Vec<(u32, u32)>)
    ensures
        final(out)@.map_values(|x: VersionPiece| piece_view(x)) == old(out)@.map_values(
            |x: VersionPiece| piece_view(x),
        ) + range_pieces(rs@),
{
    let ghost o0 = out@.map_values(|x: VersionPiece| piece_view(x));
    let mut i: usize = 0;
    assert(rs@.take(0) =~= seq![]);
    assert(out@.map_values(|x: VersionPiece| piece_view(x)) =~= o0 + range_pieces(seq![]));
    while i < rs.len()
        invariant
            i <= rs@.len(),
            out@.map_values(|x: VersionPiece| piece_view(x)) == o0 + range_pieces(rs@.take(i as int)),
        decreases rs.len() - i,
    {
        push_piece(out, VersionPiece::Number(rs[i].0 as u64));
        push_piece(out, VersionPiece::Number(rs[i].1 as u64));
        assert(rs@.take(i + 1).drop_last() =~= rs@.take(i as int));
        assert(out@.map_values(|x: VersionPiece| piece_view(x)) =~= o0 + range_pieces(
            rs@.take(i + 1),
        ));
        i = i + 1;
    }
    assert(rs@.take(i as int) =~= rs@);
}

impl ScriptContainer {
    /// What the digest that versions the container takes in, where
    /// `has_version_sh` tells whether its builder has a `version.sh`.
    pub fn version_pieces(&self, has_version_sh: bool) -> (r: Vec<VersionPiece>)
        ensures
            r@.map_values(|x: VersionPiece| piece_view(x)) == version_pieces_of(*self, has_version_sh),
    {
        let mut r: Vec<VersionPiece> = Vec::new();
        let ghost f = |x: VersionPiece| piece_view(x);
        assert(r@.map_values(f) =~= seq![]);
        if has_version_sh {
            push_piece(&mut r, VersionPiece::Text(String::from_str(self.builder.as_str())));
            push_piece(&mut r, VersionPiece::Text(String::from_str(":")));
            push_piece(&mut r, VersionPiece::ScriptOutput);
        } else {
            push_piece(&mut r, VersionPiece::Text(self.primitive_version()));
        }
        let ghost r1 = r@.map_values(f);
        if self.uids.len() > 0 {
            push_piece(&mut r, VersionPiece::Text(String::from_str("uids:")));
            push_ranges(&mut r, &self.uids);
        }
        let ghost r2 = r@.map_values(f);
        if self.gids.len() > 0 {
            push_piece(&mut r, VersionPiece::Text(String::from_str("gids:")));
            push_ranges(&mut r, &self.gids);
        }
        let ghost r3 = r@.map_values(f);
        match &self.provision {
            Some(p) => push_piece(&mut r, VersionPiece::Text(String::from_str(p.as_str()))),
            None => {},
        }
        assert(r@.map_values(f) =~= version_pieces_of(*self, has_version_sh));
        r
    }
}

} // verus!
