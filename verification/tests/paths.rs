use og_cache::og_manager::sanitize;
use og_cache::og_manager::CachePath;
use og_cache::og_manager::OGManager;
use og_cache::og_manager::OGManagerError;
use og_cache::og_manager::ReadOutcome;
use og_cache::og::OGData;
use og_cache::og::OGError;
use og_cache::web_url::PageUrl;

fn page(url: &str) -> PageUrl {
    PageUrl::parse(url).expect("an absolute URL")
}

fn segments(path: &CachePath) -> Vec<&str> {
    path.segments.iter().map(|s| s.as_str()).collect()
}

fn only_alphanumeric_or_filler(segment: &str) -> bool {
    segment.chars().all(|c| c.is_alphanumeric() || c == '_')
}

#[test]
fn paths_of_a_page_with_query() {
    let manager = OGManager::new("cache".to_string());
    let (entry, metadata, host, favicon, image) = manager.get_paths(&page("https://ex.com/a/b.html?x=1&y=2"));
    assert_eq!(segments(&entry), vec!["cache", "ex_com", "_a_b_html", "x_1_y_2"]);
    assert_eq!(segments(&metadata), vec!["cache", "ex_com", "_a_b_html", "x_1_y_2", "data.json"]);
    assert_eq!(segments(&host), vec!["cache", "ex_com"]);
    assert_eq!(segments(&favicon), vec!["cache", "ex_com", "favicon.ico"]);
    assert_eq!(segments(&image), vec!["cache", "ex_com", "_a_b_html", "x_1_y_2", "image.png"]);
}

#[test]
fn paths_of_a_page_without_query() {
    let manager = OGManager::new("/var/cache/og".to_string());
    let (entry, metadata, host, favicon, image) = manager.get_paths(&page("https://www.example.org"));
    assert_eq!(segments(&entry), vec!["/var/cache/og", "www_example_org", "_", ""]);
    assert_eq!(segments(&metadata), vec!["/var/cache/og", "www_example_org", "_", "", "data.json"]);
    assert_eq!(segments(&host), vec!["/var/cache/og", "www_example_org"]);
    assert_eq!(segments(&favicon), vec!["/var/cache/og", "www_example_org", "favicon.ico"]);
    assert_eq!(segments(&image), vec!["/var/cache/og", "www_example_org", "_", "", "image.png"]);
}

#[test]
fn paths_of_a_url_without_host() {
    let manager = OGManager::new("cache".to_string());
    let (entry, _, host, favicon, _) = manager.get_paths(&page("mailto:someone@ex.com"));
    assert_eq!(segments(&host), vec!["cache", "no_host"]);
    assert_eq!(segments(&favicon), vec!["cache", "no_host", "favicon.ico"]);
    assert_eq!(segments(&entry), vec!["cache", "no_host", "someone_ex_com", ""]);
    let odd = PageUrl { href: String::new(), host: None, path: String::new(), query: Some(String::new()) };
    assert_eq!(segments(&manager.get_paths(&odd).0), vec!["cache", "no_host", "", ""]);
}

#[test]
fn paths_are_the_same_on_every_call() {
    let manager = OGManager::new("cache".to_string());
    let url = page("https://ex.com/a?b=1");
    let first = manager.get_paths(&url);
    let second = manager.get_paths(&url);
    assert_eq!(first.0.segments, second.0.segments);
    assert_eq!(first.1.segments, second.1.segments);
    assert_eq!(first.2.segments, second.2.segments);
    assert_eq!(first.3.segments, second.3.segments);
    assert_eq!(first.4.segments, second.4.segments);
}

#[test]
fn paths_ignore_the_fragment_and_the_scheme() {
    let manager = OGManager::new("cache".to_string());
    let a = manager.get_paths(&page("https://ex.com/a?b=1#top"));
    let b = manager.get_paths(&page("http://ex.com/a?b=1#bottom"));
    assert_eq!(a.1.segments, b.1.segments);
    assert_eq!(a.3.segments, b.3.segments);
}

#[test]
fn distinct_paths_and_queries_have_distinct_entries() {
    let manager = OGManager::new("cache".to_string());
    let a = manager.get_paths(&page("https://ex.com/a?b=1"));
    let b = manager.get_paths(&page("https://ex.com/a?b=2"));
    let c = manager.get_paths(&page("https://ex.com/c?b=1"));
    assert_ne!(a.1.segments, b.1.segments);
    assert_ne!(a.1.segments, c.1.segments);
    assert_eq!(a.3.segments, b.3.segments);
    assert_eq!(a.3.segments, c.3.segments);
}

#[test]
fn punctuation_collides() {
    let manager = OGManager::new("cache".to_string());
    let a = manager.get_paths(&page("https://ex.com/a-b"));
    let b = manager.get_paths(&page("https://ex.com/a.b"));
    assert_eq!(a.1.segments, b.1.segments);
}

#[test]
fn sanitize_replaces_what_is_not_alphanumeric() {
    assert_eq!(sanitize("/a/b.html"), "_a_b_html");
    assert_eq!(sanitize("x=1&y=2"), "x_1_y_2");
    assert_eq!(sanitize(""), "");
    assert_eq!(sanitize("_"), "_");
    assert_eq!(sanitize("AZaz09"), "AZaz09");
    assert_eq!(sanitize("../../etc/passwd"), "______etc_passwd");
    assert_eq!(sanitize("a b\tc\n"), "a_b_c_");
    assert_eq!(sanitize("caf\u{e9}/\u{4eac}\u{90fd}"), "caf\u{e9}_\u{4eac}\u{90fd}");
    assert_eq!(sanitize("\u{663}\u{be}!"), "\u{663}\u{be}_");
    assert_eq!(sanitize("%F0%9F%92%9D\u{1f49d}"), "_F0_9F_92_9D_");
}

#[test]
fn sanitized_segments_hold_only_alphanumerics_and_filler() {
    let manager = OGManager::new("cache".to_string());
    for url in [
        "https://ex.com/a/b.html?x=1&y=2",
        "https://user:pw@sub.ex.com:8080/%7Ejoe/../x//y;z?q=a+b%20c&r[]=1#f",
        "https://xn--caf-dma.example/\u{e9}t\u{e9}?\u{4eac}=\u{90fd}",
        "file:///tmp/some%20file.txt",
        "https://ex.com",
    ] {
        let (entry, ..) = manager.get_paths(&page(url));
        assert_eq!(entry.segments.len(), 4);
        for segment in &entry.segments[1..] {
            assert!(only_alphanumeric_or_filler(segment), "{:?} in {:?}", segment, url);
        }
    }
    for text in ["", "/", "a/b", "?&=", "\u{e9}\u{0}\u{7f}\u{a0}\u{2028}", "..", "C:\\x"] {
        let s = sanitize(text);
        assert_eq!(s.chars().count(), text.chars().count());
        assert!(only_alphanumeric_or_filler(&s));
    }
}

#[test]
fn layout_puts_the_segments_in_place() {
    let manager = OGManager::new("r".to_string());
    let (entry, metadata, host, favicon, image) =
        manager.layout("h".to_string(), "p".to_string(), "q".to_string());
    assert_eq!(segments(&entry), vec!["r", "h", "p", "q"]);
    assert_eq!(segments(&metadata), vec!["r", "h", "p", "q", "data.json"]);
    assert_eq!(segments(&host), vec!["r", "h"]);
    assert_eq!(segments(&favicon), vec!["r", "h", "favicon.ico"]);
    assert_eq!(segments(&image), vec!["r", "h", "p", "q", "image.png"]);
    assert_eq!(manager.save_location(), "r");
}

#[test]
fn image_is_stored_under_the_name_of_its_last_segment() {
    let manager = OGManager::new("cache".to_string());
    let url = page("https://ex.com/a?b=1");
    let named = manager.image_path(&url, &page("https://cdn.ex.com/img/pic.jpg?w=300"));
    assert_eq!(segments(&named), vec!["cache", "ex_com", "_a", "b_1", "pic.jpg"]);
    let directory = manager.image_path(&url, &page("https://cdn.ex.com/img/"));
    assert_eq!(segments(&directory), vec!["cache", "ex_com", "_a", "b_1", "image.png"]);
    let root = manager.image_path(&url, &page("https://cdn.ex.com"));
    assert_eq!(segments(&root), vec!["cache", "ex_com", "_a", "b_1", "image.png"]);
    let opaque = manager.image_path(&url, &page("data:image/png;base64,AAAA"));
    assert_eq!(segments(&opaque), vec!["cache", "ex_com", "_a", "b_1", "image.png"]);
}

#[test]
fn cache_path_child_and_clone() {
    let base = CachePath { segments: vec!["a".to_string(), "b".to_string()] };
    let child = base.child("c".to_string());
    assert_eq!(segments(&child), vec!["a", "b", "c"]);
    assert_eq!(segments(&base), vec!["a", "b"]);
    assert_eq!(base.clone().segments, base.segments);
    assert_eq!(CachePath { segments: vec![] }.clone().segments, Vec::<String>::new());
}

#[test]
fn record_path_is_the_metadata_file() {
    let manager = OGManager::new("cache".to_string());
    let url = page("https://ex.com/a?b=1");
    assert_eq!(manager.record_path(&url).segments, manager.get_paths(&url).1.segments);
    assert_eq!(segments(&manager.record_path(&url)), vec!["cache", "ex_com", "_a", "b_1", "data.json"]);
}

#[test]
fn read_outcomes_become_results() {
    let manager = OGManager::new("cache".to_string());
    let data = OGData {
        title: Some("t".to_string()),
        image: None,
        url: page("https://ex.com/a"),
        description: None,
        site_name: None,
    };
    let found = manager.get_og(ReadOutcome::Found(data)).expect("a record");
    assert_eq!(found.title.as_deref(), Some("t"));
    assert_eq!(found.url.href, "https://ex.com/a");
    assert!(matches!(
        manager.get_og(ReadOutcome::Missing("no file".to_string())),
        Err(OGManagerError::NotFound(m)) if m == "no file"
    ));
    assert!(matches!(
        manager.get_og(ReadOutcome::Unreadable("denied".to_string())),
        Err(OGManagerError::IOError(m)) if m == "denied"
    ));
    assert!(matches!(
        manager.get_og(ReadOutcome::Corrupt("not json".to_string())),
        Err(OGManagerError::ParsingError(m)) if m == "not json"
    ));
}

#[test]
fn manager_error_messages() {
    assert_eq!(
        OGManagerError::IOError("disk full".to_string()).message(),
        "Unable to write or read og cache file: disk full"
    );
    assert_eq!(
        OGManagerError::RequestError("timed out".to_string()).message(),
        "Unable to reqwest og image: timed out"
    );
    assert_eq!(
        OGManagerError::ParsingError("eof".to_string()).message(),
        "Unable to parse open graph data from cache: eof"
    );
    assert_eq!(
        OGManagerError::OGError(OGError::HTMLError("bad".to_string())).message(),
        "Encounterd an og error while fetching the open graph data from website: Unable to parse the html: bad"
    );
    assert_eq!(
        OGManagerError::OGError(OGError::RequestError("refused".to_string())).message(),
        "Encounterd an og error while fetching the open graph data from website: Unable to request the specified url: refused"
    );
    assert_eq!(
        OGManagerError::NotFound("data.json".to_string()).message(),
        "Unable to find og cache file: data.json"
    );
}
