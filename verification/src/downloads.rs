use vstd::prelude::*;
use crate::text::{
    chars_of, concat, concat3, string_of, split_on, split_char, string_views, opt_text, byte_prefix, byte_prefix_of, has_prefix, str_starts_with, same_text, ascii_text, debug_quote, debug_text, path_debug, path_debug_text,
};
use crate::hashing::{sha256_hex, sha256_text, sha256_bytes_hex, sha256_bytes_text};

verus! {

/// The components of a path that name something: its pieces between `/`,
/// without the empty ones and the `.` ones.
pub open spec fn named_parts(ps: Seq<Seq<char>>) -> Seq<Seq<char>>
    decreases ps.len(),
{
    if ps.len() == 0 {
        seq![]
    } else {
        let rest = named_parts(ps.drop_last());
        if ps.last().len() > 0 && ps.last() != "."@ {
            rest.push(ps.last())
        } else {
            rest
        }
    }
}

/// The last component of the path `s`, as `Path::file_name` gives it: none
/// where the path has no component that names something, or ends in `..`.
pub open spec fn file_name_of(s: Seq<char>) -> Option<Seq<char>> {
    let c = named_parts(split_on(s, '/'));
    if c.len() == 0 || c.last() == ".."@ {
        None
    } else {
        Some(c.last())
    }
}

/// The last component of the path `path`.
pub fn file_name(path: &str) -> (r: Option<String>)
    ensures
        opt_text(r) == file_name_of(path@),
{
    let parts = split_char(path, '/');
    let ghost ps = split_on(path@, '/');
    let mut last: Option<usize> = None;
    let mut i: usize = 0;
    assert(ps.take(0) =~= seq![]);
    while i < parts.len()
        invariant
            string_views(parts@) == ps,
            i <= parts@.len(),
            match last {
                Some(k) => k < i && named_parts(ps.take(i as int)).len() > 0 && named_parts(
                    ps.take(i as int),
                ).last() == ps[k as int],
                None => named_parts(ps.take(i as int)).len() == 0,
            },
        decreases parts.len() - i,
    {
        assert(ps.take(i + 1).drop_last() =~= ps.take(i as int));
        assert(ps.take(i + 1).last() == parts@[i as int]@);
        let p = parts[i].as_str();
        if p.unicode_len() > 0 && !same_text(p, ".") {
            last = Some(i);
        }
        i = i + 1;
    }
    assert(ps.take(i as int) =~= ps);
    match last {
        None => None,
        Some(k) => {
            let p = parts[k].as_str();
            if same_text(p, "..") {
                None
            } else {
                Some(parts[k].clone())
            }
        },
    }
}

/// The first eight characters of a hash: the given SHA-256 sum, or else the
/// SHA-256 digest of `url`.
pub open spec fn hash_prefix(url: Seq<char>, sha256: Option<Seq<char>>) -> Seq<char> {
    match sha256 {
        Some(s) => byte_prefix_of(s, 8)->0,
        None => sha256_text(url).take(8),
    }
}

/// A given SHA-256 sum has at least eight bytes, and its eighth byte ends
/// a character (so that its first eight bytes can be taken).
pub open spec fn sum_ok(sha256: Option<Seq<char>>) -> bool {
    sha256 matches Some(s) ==> byte_prefix_of(s, 8) is Some
}

/// The name of the cached download of `url`: eight characters of a hash,
/// `-`, and the file name of the url (`file.bin` where it has none).
pub open spec fn cache_name_of(url: Seq<char>, sha256: Option<Seq<char>>) -> Seq<char> {
    hash_prefix(url, sha256) + "-"@ + match file_name_of(url) {
        Some(n) => n,
        None => "file.bin"@,
    }
}

/// The directory of cached downloads.
pub const DOWNLOADS_DIR: &'static str = "/vagga/cache/downloads/";

/// The first eight bytes of the given sum, or eight digits of the digest
/// of `url`.
pub(crate) fn hash_head(url: &str, sha256: &Option<String>) -> (r: String)
    requires
        sum_ok(opt_text(*sha256)),
    ensures
        r@ == hash_prefix(url@, opt_text(*sha256)),
{
    match sha256 {
        Some(s) => match byte_prefix(s.as_str(), 8) {
            Some(p) => p,
            None => String::new(),
        },
        None => {
            let hash = sha256_hex(url);
            let hv = chars_of(hash.as_str());
            string_of(&hv, 0, 8)
        },
    }
}

/// The name of the cached download of `url`, checked against `sha256`
/// where it is given.
pub fn cache_name(url: &str, sha256: &Option<String>) -> (r: String)
    requires
        sum_ok(opt_text(*sha256)),
    ensures
        r@ == cache_name_of(url@, opt_text(*sha256)),
{
    let prefix = hash_head(url, sha256);
    let name = match file_name(url) {
        Some(n) => n,
        None => String::from_str("file.bin"),
    };
    concat3(prefix.as_str(), "-", name.as_str())
}

/// Whether one of `urls` is fetched over https.
pub fn any_https(urls: &Vec<String>) -> (r: bool)
    ensures
        r == exists|i: int| 0 <= i < urls@.len() && has_prefix(#[trigger] urls@[i]@, "https:"@),
{
    let mut i: usize = 0;
    while i < urls.len()
        invariant
            i <= urls@.len(),
            forall|k: int| 0 <= k < i ==> !has_prefix(#[trigger] urls@[k]@, "https:"@),
        decreases urls.len() - i,
    {
        if str_starts_with(urls[i].as_str(), "https:") {
            return true;
        }
        i = i + 1;
    }
    false
}

/// The command that fetches `url` into the file `tmp`: `wget` where https
/// is needed, else the `wget` of busybox.
pub open spec fn fetch_command_of(https: bool, tmp: Seq<char>, url: Seq<char>) -> Seq<Seq<char>> {
    if https {
        seq!["/usr/bin/wget"@, "-O"@, tmp, url]
    } else {
        seq!["/vagga/bin/busybox"@, "wget"@, "-O"@, tmp, url]
    }
}

/// The command that fetches `url` into the file `tmp`.
pub fn fetch_command(https: bool, tmp: &str, url: &str) -> (r: Vec<String>)
    ensures
        string_views(r@) == fetch_command_of(https, tmp@, url@),
{
    let r = if https {
        vec![
            String::from_str("/usr/bin/wget"),
            String::from_str("-O"),
            String::from_str(tmp),
            String::from_str(url),
        ]
    } else {
        vec![
            String::from_str("/vagga/bin/busybox"),
            String::from_str("wget"),
            String::from_str("-O"),
            String::from_str(tmp),
            String::from_str(url),
        ]
    };
    assert(string_views(r@) =~= fetch_command_of(https, tmp@, url@));
    r
}

/// The file that a url names on this machine: one relative to the project
/// (starting with `.`) or one in a volume (starting with `/volumes/`).
pub open spec fn local_path_of(url: Seq<char>) -> Option<Seq<char>> {
    if has_prefix(url, "."@) {
        Some("/work/"@ + url)
    } else if has_prefix(url, "/volumes/"@) {
        Some(url)
    } else {
        None
    }
}

/// The file that `url` names on this machine, if it names one.
pub fn local_path(url: &str) -> (r: Option<String>)
    ensures
        opt_text(r) == local_path_of(url@),
{
    if str_starts_with(url, ".") {
        Some(concat("/work/", url))
    } else if str_starts_with(url, "/volumes/") {
        Some(String::from_str(url))
    } else {
        None
    }
}

/// Where the file of a url comes from: a file on this machine, or a
/// download cached under the given path.
#[derive(Debug, PartialEq, Eq)]
pub enum FileSource {
    Local(String),
    Download(String),
}

/// Where the file of `url` comes from: the local file it names, or else the
/// cache of downloads (whose name holds the start of the sum `sha256`,
/// where one is given). The contents are checked against the sum by
/// `check_local` for a local file and by `check_download` for a download.
pub fn maybe_download_and_check_hashsum(url: &str, sha256: &Option<String>) -> (r: FileSource)
    requires
        local_path_of(url@) is None ==> sum_ok(opt_text(*sha256)),
    ensures
        match r {
            FileSource::Local(p) => local_path_of(url@) == Some(p@),
            FileSource::Download(p) => local_path_of(url@) is None && p@ == DOWNLOADS_DIR@
                + cache_name_of(url@, opt_text(*sha256)),
        },
{
    match local_path(url) {
        Some(p) => FileSource::Local(p),
        None => {
            let name = cache_name(url, sha256);
            FileSource::Download(concat(DOWNLOADS_DIR, name.as_str()))
        },
    }
}

/// The partial file that a download of the cached file `name` writes
/// before it is complete.
pub fn part_path(name: &str) -> (r: String)
    ensures
        r@ == DOWNLOADS_DIR@ + name@ + ".part"@,
{
    concat3(DOWNLOADS_DIR, name, ".part")
}

/// What running the command that fetches one url gave.
#[derive(Debug)]
pub enum FetchStatus {
    /// The command succeeded.
    Succeeded,
    /// The command failed.
    Failed,
    /// The command could not start, with the error.
    NotStarted(String),
}

/// What a download does after it tried one url.
#[derive(Debug)]
pub enum FetchNext {
    /// Keeps the file, once `check_download` accepts it.
    Keep,
    /// Tries the next url.
    TryNext,
    /// Stops with the error.
    Stop(String),
}

/// What a download does after the command that fetched one url gave
/// `status`: keeps the file where it succeeded, tries the next url where it
/// failed, and stops where it could not start.
pub fn after_fetch(status: FetchStatus) -> (r: FetchNext)
    ensures
        match status {
            FetchStatus::Succeeded => r is Keep,
            FetchStatus::Failed => r is TryNext,
            FetchStatus::NotStarted(e) => r matches FetchNext::Stop(m) && m@ == "Error starting wget: "@
                + e@,
        },
{
    match status {
        FetchStatus::Succeeded => FetchNext::Keep,
        FetchStatus::Failed => FetchNext::TryNext,
        FetchStatus::NotStarted(e) => FetchNext::Stop(concat("Error starting wget: ", e.as_str())),
    }
}

/// The texts `ts` each as `Debug` quotes it, separated by `, `.
pub open spec fn quoted_joined(ts: Seq<Seq<char>>) -> Seq<char>
    decreases ts.len(),
{
    if ts.len() == 0 {
        seq![]
    } else if ts.len() == 1 {
        debug_text(ts[0])
    } else {
        quoted_joined(ts.drop_last()) + ", "@ + debug_text(ts.last())
    }
}

/// The message where none of the urls `urls` could be fetched into the
/// file `filename`.
pub open spec fn download_failure(filename: Seq<char>, urls: Seq<Seq<char>>) -> Seq<char> {
    "Error downloading file "@ + path_debug_text(filename) + " from "@ + "["@ + quoted_joined(urls)
        + "]"@
}

/// The error where none of the urls `urls` could be fetched into the file
/// `filename`.
pub fn download_error(filename: &str, urls: &Vec<String>) -> (r: String)
    ensures
        r@ == download_failure(filename@, string_views(urls@)),
{
    let mut list = String::new();
    let mut i: usize = 0;
    assert(string_views(urls@).take(0) =~= seq![]);
    while i < urls.len()
        invariant
            i <= urls@.len(),
            list@ == quoted_joined(string_views(urls@).take(i as int)),
        decreases urls.len() - i,
    {
        let ghost us = string_views(urls@);
        assert(us.take(i + 1).drop_last() =~= us.take(i as int));
        assert(us.take(i + 1).last() == urls@[i as int]@);
        if i > 0 {
            list.append(", ");
        }
        list.append(debug_quote(urls[i].as_str()).as_str());
        proof {
            if i == 0 {
                assert(us.take(1) =~= seq![us[0]]);
            }
        }
        i = i + 1;
    }
    assert(string_views(urls@).take(i as int) =~= string_views(urls@));
    let head = concat3("Error downloading file ", path_debug(filename).as_str(), " from ");
    let tail = concat3("[", list.as_str(), "]");
    concat(head.as_str(), tail.as_str())
}

/// The message for contents whose digest `got` is not the sum `expected`.
pub open spec fn sum_mismatch(expected: Seq<char>, got: Seq<char>) -> Seq<char> {
    "Hashsum mismatch: expected "@ + expected + ", got "@ + got
}

/// Checks the contents `data` against the SHA-256 sum `sha256`: they pass
/// where their digest, in lowercase hexadecimal, is the sum.
pub fn check_hashsum(data: &[u8], sha256: &str) -> (r: Result<(), String>)
    ensures
        r is Ok <==> sha256_bytes_text(data@) == sha256@,
        r matches Err(e) ==> e@ == sum_mismatch(sha256@, sha256_bytes_text(data@)),
{
    let got = sha256_bytes_hex(data);
    if same_text(got.as_str(), sha256) {
        Ok(())
    } else {
        Err(concat(concat3("Hashsum mismatch: expected ", sha256, ", got ").as_str(), got.as_str()))
    }
}

/// Checks the local file `path`, whose contents are `data`, against the sum
/// `sha256` where one is given.
pub fn check_local(path: &str, data: &[u8], sha256: &Option<String>) -> (r: Result<(), String>)
    ensures
        match sha256 {
            None => r is Ok,
            Some(s) => (r is Ok <==> sha256_bytes_text(data@) == s@) && (r matches Err(e) ==> e@
                == "Error when checking hashsum for file "@ + path_debug_text(path@) + ": "@
                + sum_mismatch(s@, sha256_bytes_text(data@))),
        },
{
    match sha256 {
        None => Ok(()),
        Some(s) => match check_hashsum(data, s.as_str()) {
            Ok(()) => Ok(()),
            Err(e) => Err(concat(
                concat3("Error when checking hashsum for file ", path_debug(path).as_str(), ": ").as_str(),
                e.as_str(),
            )),
        },
    }
}

/// Checks a downloaded file, whose contents are `data`, against the sum
/// `sha256` where one is given; a file that fails is not kept.
pub fn check_download(data: &[u8], sha256: &Option<String>) -> (r: Result<(), String>)
    ensures
        match sha256 {
            None => r is Ok,
            Some(s) => (r is Ok <==> sha256_bytes_text(data@) == s@) && (r matches Err(e) ==> e@
                == sum_mismatch(s@, sha256_bytes_text(data@))),
        },
{
    match sha256 {
        None => Ok(()),
        Some(s) => check_hashsum(data, s.as_str()),
    }
}

/// Where a download of a file into the cache stands.
#[derive(Debug, Clone, Copy, PartialEq, Eq, Structural)]
pub enum DownloadStage {
    /// Nothing looked at yet.
    Start,
    /// The lock on the download is held.
    Locked,
    /// The url with this index is being fetched.
    Fetching(usize),
    /// The download is over.
    Done,
}

/// What a download does next.
#[derive(Debug)]
pub enum DownloadAction {
    /// Answer the cached file; nothing is fetched.
    UseCache,
    /// Take the lock on the download, then look at the cache again.
    TakeLock,
    /// Fetch the url with this index (with `fetch_command`).
    Fetch(usize),
    /// Keep the fetched file where `check_download` accepts it, and answer
    /// the cached file.
    Keep,
    /// Stop with this error: every url failed.
    Fail(String),
    /// Stop with this error, as the fetch gave it.
    Stop(String),
}

/// A download of the file `filename` (the cached file) from the urls
/// `urls`, tried in order; with `refresh` the cache is not answered before
/// the lock is held.
pub struct Download {
    pub filename: String,
    pub urls: Vec<String>,
    pub refresh: bool,
    pub stage: DownloadStage,
}

/// The stage that follows `stage` (fetching some url out of `n`) where the
/// fetch ended in `next`: the next url after a failure, while there is
/// one; the end otherwise.
pub open spec fn next_stage(stage: DownloadStage, n: nat, next: FetchNext) -> DownloadStage {
    match stage {
        DownloadStage::Fetching(i) => match next {
            FetchNext::TryNext => if i + 1 < n {
                DownloadStage::Fetching((i + 1) as usize)
            } else {
                DownloadStage::Done
            },
            _ => DownloadStage::Done,
        },
        _ => stage,
    }
}

/// The stage of a download of `n` urls after the fetches, begun at the
/// first url, ended in `rs` in turn (a result that comes once the download
/// is over changes nothing).
pub open spec fn stage_after(n: nat, rs: Seq<FetchNext>) -> DownloadStage
    decreases rs.len(),
{
    if rs.len() == 0 {
        DownloadStage::Fetching(0)
    } else {
        next_stage(stage_after(n, rs.drop_last()), n, rs.last())
    }
}

impl Download {
    /// The stage fetches only a url that exists.
    pub open spec fn wf(&self) -> bool {
        self.stage matches DownloadStage::Fetching(i) ==> i < self.urls@.len()
    }

    /// A download that looked at nothing yet.
    pub fn new(filename: String, urls: Vec<String>, refresh: bool) -> (r: Download)
        ensures
            r.wf(),
            r.filename == filename,
            r.urls == urls,
            r.refresh == refresh,
            r.stage == DownloadStage::Start,
    {
        Download { filename, urls, refresh, stage: DownloadStage::Start }
    }

    /// Looks at the cache, where `cached` says whether the cached file
    /// exists. Before the lock: the cached file is answered unless
    /// `refresh`, and the lock is taken otherwise. With the lock held: the
    /// cached file is answered where it exists (another download may have
    /// made it), and otherwise the first url is fetched (where there is
    /// none, the download fails).
    pub fn cache_checked(&mut self, cached: bool) -> (r: DownloadAction)
        requires
            old(self).stage is Start || old(self).stage is Locked,
        ensures
            final(self).wf(),
            final(self).filename == old(self).filename,
            final(self).urls == old(self).urls,
            final(self).refresh == old(self).refresh,
            old(self).stage is Start ==> if !old(self).refresh && cached {
                r is UseCache && final(self).stage == DownloadStage::Done
            } else {
                r is TakeLock && final(self).stage == DownloadStage::Locked
            },
            old(self).stage is Locked ==> if cached {
                r is UseCache && final(self).stage == DownloadStage::Done
            } else if old(self).urls@.len() > 0 {
                r matches DownloadAction::Fetch(i) && i == 0 && final(self).stage
                    == DownloadStage::Fetching(0)
            } else {
                r matches DownloadAction::Fail(m) && m@ == download_failure(
                    old(self).filename@,
                    string_views(old(self).urls@),
                ) && final(self).stage == DownloadStage::Done
            },
    {
        match self.stage {
            DownloadStage::Start => {
                if !self.refresh && cached {
                    self.stage = DownloadStage::Done;
                    DownloadAction::UseCache
                } else {
                    self.stage = DownloadStage::Locked;
                    DownloadAction::TakeLock
                }
            },
            _ => {
                if cached {
                    self.stage = DownloadStage::Done;
                    DownloadAction::UseCache
                } else if self.urls.len() > 0 {
                    self.stage = DownloadStage::Fetching(0);
                    DownloadAction::Fetch(0)
                } else {
                    self.stage = DownloadStage::Done;
                    DownloadAction::Fail(download_error(self.filename.as_str(), &self.urls))
                }
            },
        }
    }

    /// Takes what the fetch of the current url led to (`after_fetch`): a
    /// kept file ends the download, and so does an error, passed on as it
    /// came; a failure moves on to the next url, and where there is none
    /// the download fails.
    pub fn fetched(&mut self, next: FetchNext) -> (r: DownloadAction)
        requires
            old(self).wf(),
            old(self).stage is Fetching,
        ensures
            final(self).wf(),
            final(self).filename == old(self).filename,
            final(self).urls == old(self).urls,
            final(self).refresh == old(self).refresh,
            final(self).stage == next_stage(old(self).stage, old(self).urls@.len(), next),
            match next {
                FetchNext::Keep => r is Keep,
                FetchNext::Stop(e) => r matches DownloadAction::Stop(m) && m@ == e@,
                FetchNext::TryNext => match final(self).stage {
                    DownloadStage::Fetching(j) => r matches DownloadAction::Fetch(k) && k == j,
                    _ => r matches DownloadAction::Fail(m) && m@ == download_failure(
                        old(self).filename@,
                        string_views(old(self).urls@),
                    ),
                },
            },
    {
        let i = match self.stage {
            DownloadStage::Fetching(i) => i,
            _ => 0,
        };
        let n = self.urls.len();
        assert(i < n);
        match next {
            FetchNext::Keep => {
                self.stage = DownloadStage::Done;
                DownloadAction::Keep
            },
            FetchNext::Stop(e) => {
                self.stage = DownloadStage::Done;
                DownloadAction::Stop(e)
            },
            FetchNext::TryNext => {
                if i + 1 < n {
                    self.stage = DownloadStage::Fetching(i + 1);
                    DownloadAction::Fetch(i + 1)
                } else {
                    self.stage = DownloadStage::Done;
                    DownloadAction::Fail(download_error(self.filename.as_str(), &self.urls))
                }
            },
        }
    }
}

/// The urls of a download are tried in order: after the fetches that ended
/// in `rs`, the download fetches url number `rs.len()` exactly where every
/// fetch before failed and there is such a url; otherwise it is over, so
/// nothing is fetched after a kept file or an error.
pub proof fn lemma_urls_in_order(n: nat, rs: Seq<FetchNext>)
    requires
        0 < n <= usize::MAX,
    ensures
        stage_after(n, rs) == if rs.len() < n && forall|j: int|
            0 <= j < rs.len() ==> #[trigger] rs[j] is TryNext {
            DownloadStage::Fetching(rs.len() as usize)
        } else {
            DownloadStage::Done
        },
    decreases rs.len(),
{
    if rs.len() > 0 {
        let init = rs.drop_last();
        lemma_urls_in_order(n, init);
        if init.len() < n && forall|j: int| 0 <= j < init.len() ==> #[trigger] init[j] is TryNext {
            assert forall|j: int| 0 <= j < rs.len() - 1 implies #[trigger] rs[j] is TryNext by {
                assert(init[j] == rs[j]);
            }
        } else {
            if rs.len() < n {
                let j = choose|j: int| 0 <= j < init.len() && !(#[trigger] init[j] is TryNext);
                assert(init[j] == rs[j]);
            }
        }
    }
}

} // verus!
