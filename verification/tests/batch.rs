use favicon_resolver::favicon::Favicon;
use favicon_resolver::mime_type::MimeType;
use favicon_resolver::resolver::{resolve_step, start_resolution, ResolveEvent};
use favicon_resolver::utils::sanitize_website_filename;
use favicon_resolver::website::{aggregate_results, resolution_outcome, ProcessWebsiteError};

#[test]
fn one_failing_site_never_blocks_the_batch() {
    let websites = vec![
        String::from("a.example.com"),
        String::from("b.example.com"),
    ];

    // Site a: the well-known probe succeeds.
    let (state_a, _) = start_resolution("a.example.com");
    let (state_a, _) = resolve_step(
        state_a,
        ResolveEvent::HtmlOk {
            final_url: String::from("https://a.example.com/"),
            body: String::from("<html></html>"),
        },
    );
    let (state_a, _) = resolve_step(state_a, ResolveEvent::IconOk { data: vec![0, 1, 2] });

    // Site b: every fetch fails.
    let (state_b, _) = start_resolution("b.example.com");
    let (state_b, _) = resolve_step(state_b, ResolveEvent::HtmlFailed);

    let outcomes = vec![resolution_outcome(state_a), resolution_outcome(state_b)];
    assert!(outcomes[0].is_ok());
    assert!(matches!(outcomes[1], Err(ProcessWebsiteError::FaviconNotFound)));

    let entries = aggregate_results(&websites, &outcomes);
    assert_eq!(entries.len(), 1);
    assert_eq!(entries[0].0, "a.example.com");
    assert_eq!(entries[0].1, "data:image/x-icon;base64,AAEC");
}

#[test]
fn aggregation_preserves_input_order() {
    let websites = vec![
        String::from("one.example.com"),
        String::from("two.example.com"),
        String::from("three.example.com"),
    ];
    let outcomes = vec![
        Ok(Favicon { data: b"a".to_vec(), mime_type: MimeType::ImagePng }),
        Err(ProcessWebsiteError::FaviconNotFound),
        Ok(Favicon { data: b"b".to_vec(), mime_type: MimeType::ImageGif }),
    ];
    let entries = aggregate_results(&websites, &outcomes);
    assert_eq!(entries.len(), 2);
    assert_eq!(entries[0].0, "one.example.com");
    assert_eq!(entries[0].1, "data:image/png;base64,YQ==");
    assert_eq!(entries[1].0, "three.example.com");
    assert_eq!(entries[1].1, "data:image/gif;base64,Yg==");
}

#[test]
fn unknown_kind_is_skipped_not_fatal() {
    let websites = vec![String::from("odd.example.com"), String::from("ok.example.com")];
    let outcomes = vec![
        Ok(Favicon {
            data: b"x".to_vec(),
            mime_type: MimeType::Unknown(String::from("application/unknown-icon")),
        }),
        Ok(Favicon { data: b"y".to_vec(), mime_type: MimeType::ImagePng }),
    ];
    let entries = aggregate_results(&websites, &outcomes);
    assert_eq!(entries.len(), 1);
    assert_eq!(entries[0].0, "ok.example.com");
}

#[test]
fn empty_batch_yields_empty_result() {
    let entries = aggregate_results(&Vec::new(), &Vec::new());
    assert_eq!(entries.len(), 0);
}

#[test]
fn filename_sanitizing_strips_scheme_and_separators() {
    assert_eq!(sanitize_website_filename("https://example.com"), "example.com");
    assert_eq!(sanitize_website_filename("http://example.com"), "example.com");
    assert_eq!(
        sanitize_website_filename("https://example.com/path/to/icon"),
        "example.compathtoicon"
    );
    assert_eq!(sanitize_website_filename("www.example.com"), "www.example.com");
}
