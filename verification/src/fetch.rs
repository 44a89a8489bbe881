use vstd::prelude::*;
use crate::downloads::{file_name, file_name_of, hash_head, hash_prefix, sum_ok};
use crate::paths::{join_path, path_join};
use crate::text::{concat3, opt_text};

verus! {

/// The path of the URL `url` as `url::Url::parse` parses it; `None` where
/// it does not parse.
pub uninterp spec fn url_path_of(url: Seq<char>) -> Option<Seq<char>>;

/// Parses `url` with `url::Url::parse` and gives the path of the parsed URL
/// (`Url::path`), or `None` where the URL does not parse. The contract
/// claims the result is `url_path_of` of the text.
#[verifier::external_body]
pub(crate) fn url_path(url: &str) -> (r: Option<String>)
    ensures
        opt_text(r) == url_path_of(url@),
{
    match url::Url::parse(url) {
        Ok(u) => Some(u.path().to_string()),
        Err(_) => None,
    }
}

/// A file to fetch into the cache of downloads: its URL, its SHA-256 sum
/// where one is given, and where it goes.
#[derive(Debug)]
pub struct FetchTask {
    pub url: String,
    pub sha256: Option<String>,
    pub destination: String,
}

/// The directory of cached downloads.
pub const FETCH_DIR: &'static str = "/vagga/cache/downloads";

/// Where the file of `url`, whose path is `path`, goes in the cache: eight
/// characters of a hash (the given sum, or the digest of the URL), `-`, and
/// the file name of the path (`file.bin` where it has none).
pub open spec fn fetch_destination(url: Seq<char>, path: Seq<char>, sha256: Option<Seq<char>>) -> Seq<char> {
    join_path(
        FETCH_DIR@,
        hash_prefix(url, sha256) + "-"@ + match file_name_of(path) {
            Some(n) => n,
            None => "file.bin"@,
        },
    )
}

impl FetchTask {
    /// The task that fetches `url`, whose path is `path`, into the cache.
    pub fn cache_at(url: &str, path: &str, sha256: &Option<String>) -> (r: FetchTask)
        requires
            sum_ok(opt_text(*sha256)),
        ensures
            r.url@ == url@,
            opt_text(r.sha256) == opt_text(*sha256),
            r.destination@ == fetch_destination(url@, path@, opt_text(*sha256)),
    {
        let prefix = hash_head(url, sha256);
        let name = match file_name(path) {
            Some(n) => n,
            None => String::from_str("file.bin"),
        };
        let full = concat3(prefix.as_str(), "-", name.as_str());
        let sum = match sha256 {
            Some(s) => Some(String::from_str(s.as_str())),
            None => None,
        };
        FetchTask { url: String::from_str(url), sha256: sum, destination: path_join(FETCH_DIR, full.as_str()) }
    }

    /// The task that fetches `url` into the cache; the URL parses.
    pub fn cache(url: &str, sha256: &Option<String>) -> (r: FetchTask)
        requires
            url_path_of(url@) is Some,
            sum_ok(opt_text(*sha256)),
        ensures
            r.url@ == url@,
            opt_text(r.sha256) == opt_text(*sha256),
            r.destination@ == fetch_destination(url@, url_path_of(url@)->0, opt_text(*sha256)),
    {
        match url_path(url) {
            Some(p) => Self::cache_at(url, p.as_str(), sha256),
            None => Self::cache_at(url, "", sha256),
        }
    }

    /// The task that fetches `url` into the cache; `None` where the URL
    /// does not parse.
    pub fn try_cache(url: &str, sha256: &Option<String>) -> (r: Option<FetchTask>)
        requires
            sum_ok(opt_text(*sha256)),
        ensures
            r is Some <==> url_path_of(url@) is Some,
            r matches Some(t) ==> t.url@ == url@ && opt_text(t.sha256) == opt_text(*sha256)
                && t.destination@ == fetch_destination(url@, url_path_of(url@)->0, opt_text(*sha256)),
    {
        match url_path(url) {
            Some(_) => Some(Self::cache(url, sha256)),
            None => None,
        }
    }
}

} // verus!
