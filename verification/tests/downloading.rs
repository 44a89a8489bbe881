use vagga_core::downloads::{after_fetch, download_error, Download, DownloadAction, DownloadStage, FetchNext, FetchStatus};

fn two_urls(refresh: bool) -> Download {
    Download::new(
        "/vagga/cache/downloads/0123abcd-x.tar".to_string(),
        vec!["http://a/x.tar".to_string(), "http://b/x.tar".to_string()],
        refresh,
    )
}

#[test]
fn a_cached_file_is_answered_without_fetching() {
    let mut d = two_urls(false);
    assert!(matches!(d.cache_checked(true), DownloadAction::UseCache));
    assert_eq!(d.stage, DownloadStage::Done);
}

#[test]
fn refresh_takes_the_lock_and_looks_again() {
    let mut d = two_urls(true);
    assert!(matches!(d.cache_checked(true), DownloadAction::TakeLock));
    assert!(matches!(d.cache_checked(true), DownloadAction::UseCache));
}

#[test]
fn urls_are_tried_in_order_until_one_is_kept() {
    let mut d = two_urls(false);
    assert!(matches!(d.cache_checked(false), DownloadAction::TakeLock));
    assert!(matches!(d.cache_checked(false), DownloadAction::Fetch(0)));
    assert!(matches!(d.fetched(after_fetch(FetchStatus::Failed)), DownloadAction::Fetch(1)));
    assert!(matches!(d.fetched(after_fetch(FetchStatus::Succeeded)), DownloadAction::Keep));
    assert_eq!(d.stage, DownloadStage::Done);
}

#[test]
fn every_url_failing_gives_the_download_error() {
    let mut d = two_urls(false);
    d.cache_checked(false);
    d.cache_checked(false);
    d.fetched(FetchNext::TryNext);
    match d.fetched(FetchNext::TryNext) {
        DownloadAction::Fail(e) => {
            assert_eq!(e, download_error(&d.filename, &d.urls));
            assert_eq!(e, "Error downloading file \"/vagga/cache/downloads/0123abcd-x.tar\" \
                from [\"http://a/x.tar\", \"http://b/x.tar\"]");
        },
        other => panic!("unexpected {:?}", other),
    }
}

#[test]
fn a_fetch_that_cannot_start_stops_the_download() {
    let mut d = two_urls(false);
    d.cache_checked(false);
    d.cache_checked(false);
    match d.fetched(after_fetch(FetchStatus::NotStarted("no wget".to_string()))) {
        DownloadAction::Stop(e) => assert_eq!(e, "Error starting wget: no wget"),
        other => panic!("unexpected {:?}", other),
    }
    assert_eq!(d.stage, DownloadStage::Done);
}
