use crate_tally::cache::{
    attempt, cache_path, crate_endpoint, crate_location, dependencies_endpoint, dependencies_location,
    index_endpoint, index_location, is_relative, judge, page_count, plan, request_url, settle,
    CacheState,
    FetchError, IndexPage, Plan,
};
use crate_tally::retry::{Retry, Step};

fn first_page(total: usize) -> IndexPage {
    IndexPage { crates: vec!["a".to_string()], total }
}

#[test]
fn page_count_rounds_up() {
    assert_eq!(page_count(&first_page(250)), 3);
    assert_eq!(page_count(&first_page(0)), 0);
    assert_eq!(page_count(&first_page(1)), 1);
    assert_eq!(page_count(&first_page(100)), 1);
    assert_eq!(page_count(&first_page(101)), 2);
    assert_eq!(page_count(&first_page(usize::MAX)), usize::MAX / 100 + 1);
}

#[test]
fn valid_cache_is_used_without_the_network() {
    assert_eq!(plan(CacheState::Valid, false, "cache/index/1.json", "u"), Plan::UseCache);
    assert_eq!(plan(CacheState::Valid, true, "cache/index/1.json", "u"), Plan::UseCache);
}

#[test]
fn missing_cache_without_network_is_a_cache_miss() {
    let expected = Plan::Fail(FetchError::CacheMiss("cache/crate/serde.json".to_string()));
    assert_eq!(plan(CacheState::Missing, false, "cache/crate/serde.json", "u"), expected);
    assert_eq!(plan(CacheState::Corrupt, false, "cache/crate/serde.json", "u"), expected);
}

#[test]
fn missing_or_corrupt_cache_with_network_downloads() {
    let url = "https://registry.example/api/v1/crates/serde?per_page=100";
    assert_eq!(plan(CacheState::Missing, true, "p", url), Plan::Download(url.to_string()));
    assert_eq!(plan(CacheState::Corrupt, true, "p", url), Plan::Download(url.to_string()));
}

#[test]
fn cache_miss_names_the_path() {
    let error = FetchError::CacheMiss("cache/index/2.json".to_string());
    assert_eq!(
        error.to_string(),
        "no cached copy at cache/index/2.json; allow downloads for one run to fetch it"
    );
    assert_eq!(FetchError::DownloadFailure("u".to_string()).to_string(), "download failed: u");
    assert_eq!(FetchError::Transport("t".to_string()).to_string(), "request failed: t");
    assert_eq!(
        FetchError::Deserialization("d".to_string()).to_string(),
        "unexpected response: d"
    );
}

#[test]
fn request_url_adds_the_page_size() {
    assert_eq!(
        request_url("https://r.example/api/v1", "/crates?page=3"),
        "https://r.example/api/v1/crates?page=3&per_page=100"
    );
    assert_eq!(
        request_url("https://r.example/api/v1", "/crates/serde"),
        "https://r.example/api/v1/crates/serde?per_page=100"
    );
}

#[test]
fn responses_are_judged_by_status() {
    assert_eq!(judge("u", Ok(200)), Ok(()));
    assert_eq!(judge("u", Ok(299)), Ok(()));
    assert_eq!(judge("u", Ok(199)), Err(FetchError::DownloadFailure("u".to_string())));
    assert_eq!(judge("u", Ok(300)), Err(FetchError::DownloadFailure("u".to_string())));
    assert_eq!(judge("u", Ok(404)), Err(FetchError::DownloadFailure("u".to_string())));
    assert_eq!(
        judge("u", Err("refused".to_string())),
        Err(FetchError::Transport("refused".to_string()))
    );
}

#[test]
fn locations_and_endpoints() {
    assert_eq!(index_location(12), "index/12.json");
    assert_eq!(crate_location("serde"), "crate/serde.json");
    assert_eq!(dependencies_location("serde", "1.0.0"), "dependencies/serde/1.0.0.json");
    assert_eq!(index_endpoint(1), "/crates?page=1");
    assert_eq!(crate_endpoint("serde"), "/crates/serde");
    assert_eq!(dependencies_endpoint("serde", "1.0.0"), "/crates/serde/1.0.0/dependencies");
}

#[test]
fn cache_paths_lie_below_the_root() {
    assert!(is_relative("index/1.json"));
    assert!(is_relative(""));
    assert!(!is_relative("/etc/passwd"));
    assert_eq!(cache_path("cache", "index/1.json"), "cache/index/1.json");
}

#[test]
fn download_ends_at_the_first_success() {
    let url = "https://r.example/crates/x?per_page=100";
    let mut retry = Retry::standard();
    let mut made = 0;
    let result = loop {
        made += 1;
        let response = if made < 32 { Ok(503) } else { Ok(200) };
        match attempt(retry, url, response) {
            Step::Done(result) => break result,
            Step::Again(rest) => retry = rest,
        }
    };
    assert_eq!(result, Ok(()));
    assert_eq!(made, 32);
}

#[test]
fn download_gives_up_with_the_last_failure() {
    let url = "https://r.example/crates/x?per_page=100";
    let mut retry = Retry::standard();
    let mut made = 0;
    let result = loop {
        made += 1;
        let response = if made < 32 { Err(format!("attempt {}", made)) } else { Ok(500) };
        match attempt(retry, url, response) {
            Step::Done(result) => break result,
            Step::Again(rest) => retry = rest,
        }
    };
    assert_eq!(result, Err(FetchError::DownloadFailure(url.to_string())));
    assert_eq!(made, 32);
    let step = attempt(Retry::new(1).unwrap(), url, Err("refused".to_string()));
    assert_eq!(step, Step::Done(Err(FetchError::Transport("refused".to_string()))));
}

#[test]
fn a_downloaded_response_is_kept_or_fails() {
    assert_eq!(settle("cache/crate/x.json", Ok(())), Ok("cache/crate/x.json".to_string()));
    assert_eq!(
        settle("cache/crate/x.json", Err("missing field `total`".to_string())),
        Err(FetchError::Deserialization("missing field `total`".to_string()))
    );
}
