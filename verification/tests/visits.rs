use og_cache::og::OGData;
use og_cache::og::OGError;
use og_cache::og_manager::OGManager;
use og_cache::og_manager::OGManagerError;
use og_cache::preview::preview_card;
use og_cache::visits::app_icon;
use og_cache::visits::asset_path;
use og_cache::visits::get_compressed_events;
use og_cache::visits::register_visit;
use og_cache::visits::visit_stored;
use og_cache::visits::VisitRead;
use og_cache::visits::WebsiteVisit;
use og_cache::web_url::PageUrl;

fn page(url: &str) -> PageUrl {
    PageUrl::parse(url).expect("an absolute URL")
}

fn visit(client: &str, url: &str) -> WebsiteVisit {
    WebsiteVisit { client: client.to_string(), website: page(url) }
}

fn record(title: Option<&str>, url: &str) -> OGData {
    OGData {
        title: title.map(|t| t.to_string()),
        image: None,
        url: page(url),
        description: None,
        site_name: None,
    }
}

#[test]
fn successful_population_leads_to_an_event() {
    let event = register_visit(visit("laptop", "https://ex.com/a"), "2024-05-01 10:00:00 UTC", Ok(()))
        .expect("an event");
    assert_eq!(event.id, "laptop@2024-05-01 10:00:00 UTC");
    assert_eq!(event.visit.client, "laptop");
    assert_eq!(event.visit.website.href, "https://ex.com/a");
}

#[test]
fn failed_population_is_told_to_the_caller() {
    let r = register_visit(
        visit("laptop", "https://ex.com/a"),
        "now",
        Err(OGManagerError::OGError(OGError::RequestError("timed out".to_string()))),
    );
    assert_eq!(
        r.expect_err("a failure"),
        "Unable to save the open graph data to cache: Encounterd an og error while fetching the open graph data from website: Unable to request the specified url: timed out"
    );
    let r = register_visit(
        visit("laptop", "https://ex.com/a"),
        "now",
        Err(OGManagerError::IOError("disk full".to_string())),
    );
    assert_eq!(
        r.expect_err("a failure"),
        "Unable to save the open graph data to cache: Unable to write or read og cache file: disk full"
    );
}

#[test]
fn store_refusal_is_told_to_the_caller() {
    assert_eq!(visit_stored(Ok(())), Ok(()));
    assert_eq!(
        visit_stored(Err("duplicate key".to_string())),
        Err("Unable to register website visit to database: duplicate key".to_string())
    );
}

#[test]
fn assets_are_located_by_kind() {
    let manager = OGManager::new("cache".to_string());
    let image = app_icon("og_image", "https://ex.com/a?b=1", &manager).expect("a location");
    assert_eq!(image.segments, vec!["cache", "ex_com", "_a", "b_1", "image.png"]);
    let icon = app_icon("favicon", "https://ex.com/a?b=1", &manager).expect("a location");
    assert_eq!(icon.segments, vec!["cache", "ex_com", "favicon.ico"]);
    assert!(app_icon("thumbnail", "https://ex.com/a?b=1", &manager).is_none());
    assert!(app_icon("", "https://ex.com/a?b=1", &manager).is_none());
    assert!(app_icon("og_image", "not a url", &manager).is_none());
    assert!(app_icon("favicon", "/relative", &manager).is_none());
    let url = page("https://ex.com/a?b=1");
    assert_eq!(
        asset_path(&manager, "favicon", &url).expect("a location").segments,
        manager.get_paths(&url).3.segments
    );
    assert_eq!(
        asset_path(&manager, "og_image", &url).expect("a location").segments,
        manager.get_paths(&url).4.segments
    );
    assert!(asset_path(&manager, "Favicon", &url).is_none());
}

#[test]
fn visits_are_summarised_in_order() {
    let reads = vec![
        VisitRead {
            visit: visit("laptop", "https://ex.com/a"),
            cached: Ok(record(Some("Page A"), "https://ex.com/a")),
        },
        VisitRead {
            visit: visit("phone", "https://www.example.org/b"),
            cached: Ok(record(None, "https://www.example.org/b")),
        },
        VisitRead {
            visit: visit("phone", "mailto:someone@ex.com"),
            cached: Ok(record(None, "mailto:someone@ex.com")),
        },
    ];
    let list = get_compressed_events(&reads).expect("summaries");
    assert_eq!(list.len(), 3);
    assert_eq!(list[0].title, "Page A");
    assert_eq!(list[0].visit.client, "laptop");
    assert_eq!(list[0].data.url.href, "https://ex.com/a");
    assert_eq!(list[1].title, "www.example.org");
    assert_eq!(list[1].visit.website.href, "https://www.example.org/b");
    assert_eq!(list[2].title, "Website Visit");
    assert_eq!(get_compressed_events(&Vec::new()).expect("summaries").len(), 0);
}

#[test]
fn one_failed_read_fails_the_batch() {
    let reads = vec![
        VisitRead {
            visit: visit("laptop", "https://ex.com/a"),
            cached: Ok(record(Some("Page A"), "https://ex.com/a")),
        },
        VisitRead {
            visit: visit("laptop", "https://ex.com/b"),
            cached: Err(OGManagerError::NotFound("data.json".to_string())),
        },
        VisitRead {
            visit: visit("laptop", "https://ex.com/c"),
            cached: Err(OGManagerError::ParsingError("eof".to_string())),
        },
        VisitRead {
            visit: visit("laptop", "https://ex.com/d"),
            cached: Ok(record(Some("Page D"), "https://ex.com/d")),
        },
    ];
    assert_eq!(
        get_compressed_events(&reads).expect_err("a failure"),
        "Unable to load open graph cache data: Unable to find og cache file: data.json"
    );
}

#[test]
fn card_shows_what_the_page_gave() {
    let data = OGData {
        title: Some("Title".to_string()),
        image: Some(page("https://cdn.ex.com/i.png")),
        url: page("https://ex.com/canonical"),
        description: Some("About".to_string()),
        site_name: Some("Example".to_string()),
    };
    let card = preview_card(&data, &visit("laptop", "https://ex.com/a?b=1"), "https%3A%2F%2Fex.com%2Fa%3Fb%3D1");
    assert_eq!(
        card.favicon_src,
        "/api/plugin/timeline_plugin_web/image/favicon/https%3A%2F%2Fex.com%2Fa%3Fb%3D1"
    );
    assert_eq!(
        card.image_src.as_deref(),
        Some("/api/plugin/timeline_plugin_web/image/og_image/https%3A%2F%2Fex.com%2Fa%3Fb%3D1")
    );
    assert_eq!(card.heading, "Example");
    assert_eq!(card.title.as_deref(), Some("Title"));
    assert_eq!(card.description.as_deref(), Some("About"));
    assert_eq!(card.link, "https://ex.com/a?b=1");
    assert_eq!(card.caption, "https://ex.com/canonical @ laptop");
}

#[test]
fn card_falls_back_to_the_host() {
    let card = preview_card(&record(None, "https://ex.com/a"), &visit("phone", "https://ex.com/a"), "x");
    assert_eq!(card.heading, "ex.com");
    assert_eq!(card.title, None);
    assert_eq!(card.description, None);
    assert_eq!(card.image_src, None);
    assert_eq!(card.favicon_src, "/api/plugin/timeline_plugin_web/image/favicon/x");
    assert_eq!(card.caption, "https://ex.com/a @ phone");
    let card = preview_card(
        &record(None, "mailto:someone@ex.com"),
        &visit("phone", "mailto:someone@ex.com"),
        "",
    );
    assert_eq!(card.heading, "");
    assert_eq!(card.link, "mailto:someone@ex.com");
}
