use favicon_resolver::favicon::{extract_candidates, parse_favicon_url, parse_size, rank_candidates};
use favicon_resolver::mime_type::MimeType;

#[test]
fn svg_icon_ranks_first() {
    let html = r#"<html><head>
        <link rel="icon" type="image/svg+xml" href="/logo.svg">
        <link rel="icon" type="image/png" sizes="32x32" href="/icon-32.png">
        <link rel="shortcut icon" type="image/x-icon" sizes="48x48" href="/favicon.ico">
        <link rel="apple-touch-icon" sizes="180x180" href="/apple.png">
    </head><body></body></html>"#;
    let candidates = extract_candidates(html, "https://www.example.com/");
    let ranked = rank_candidates(&candidates);
    assert!(ranked.len() >= 4);
    assert_eq!(ranked[0].size, u32::MAX);
    assert_eq!(ranked[0].mime, "image/svg+xml");
    assert_eq!(ranked[0].url, "https://www.example.com/logo.svg");
}

#[test]
fn numeric_sizes_rank_descending() {
    let html = r#"<html><head>
        <link rel="icon" sizes="16x16" href="/a16.png" type="image/png">
        <link rel="icon" sizes="180x180" href="/a180.png" type="image/png">
        <link rel="icon" sizes="32x32" href="/a32.png" type="image/png">
    </head></html>"#;
    let candidates = extract_candidates(html, "https://www.example.com/");
    let ranked = rank_candidates(&candidates);
    assert_eq!(ranked.len(), 3);
    assert_eq!(ranked[0].size, 180);
    assert_eq!(ranked[0].url, "https://www.example.com/a180.png");
    assert_eq!(ranked[1].size, 32);
    assert_eq!(ranked[1].url, "https://www.example.com/a32.png");
    assert_eq!(ranked[2].size, 16);
    assert_eq!(ranked[2].url, "https://www.example.com/a16.png");
}

#[test]
fn malformed_sizes_rank_as_zero() {
    let html = r#"<html><head>
        <link rel="icon" sizes="any" href="/vector.svg" type="image/svg">
        <link rel="icon" href="/nosizes.png" type="image/png">
        <link rel="icon" sizes="64x64" href="/a64.png" type="image/png">
    </head></html>"#;
    let candidates = extract_candidates(html, "https://www.example.com/");
    let ranked = rank_candidates(&candidates);
    assert_eq!(ranked.len(), 3);
    assert_eq!(ranked[0].size, 64);
    assert_eq!(ranked[0].url, "https://www.example.com/a64.png");
    assert_eq!(ranked[1].size, 0);
    assert_eq!(ranked[2].size, 0);
}

#[test]
fn parse_size_reads_leading_token() {
    assert_eq!(parse_size("16x16"), 16);
    assert_eq!(parse_size("180x180"), 180);
    assert_eq!(parse_size("48"), 48);
    assert_eq!(parse_size("+7x7"), 7);
}

#[test]
fn parse_size_malformed_is_zero() {
    assert_eq!(parse_size("any"), 0);
    assert_eq!(parse_size(""), 0);
    assert_eq!(parse_size("x32"), 0);
    assert_eq!(parse_size("+"), 0);
    assert_eq!(parse_size("16a x16"), 0);
    assert_eq!(parse_size("-16x16"), 0);
    assert_eq!(parse_size("4294967295x1"), u32::MAX);
    assert_eq!(parse_size("4294967296x1"), 0);
}

#[test]
fn relative_href_resolves_against_base() {
    let html = r#"<html><head>
        <link rel="icon" type="image/svg+xml" href="/icons/logo.svg">
    </head></html>"#;
    let location = parse_favicon_url(html, "https://www.example.com/").unwrap();
    assert_eq!(location.url, "https://www.example.com/icons/logo.svg");
    assert!(matches!(location.mime_type, MimeType::ImageSvgXml));
}

#[test]
fn missing_href_is_skipped_silently() {
    let html = r#"<html><head>
        <link rel="icon" type="image/png" sizes="32x32">
        <link rel="icon" type="image/png" sizes="16x16" href="/only.png">
    </head></html>"#;
    let candidates = extract_candidates(html, "https://www.example.com/");
    assert_eq!(candidates.len(), 1);
    assert_eq!(candidates[0].url, "https://www.example.com/only.png");
}

#[test]
fn no_candidates_yields_none() {
    let html = "<html><head><title>bare</title></head><body></body></html>";
    assert!(parse_favicon_url(html, "https://www.example.com/").is_none());
    let candidates = extract_candidates(html, "https://www.example.com/");
    assert_eq!(candidates.len(), 0);
}

#[test]
fn generic_icon_without_type_defaults_to_x_icon() {
    let html = r#"<html><head>
        <link rel="icon" sizes="32x32" href="/plain.ico">
    </head></html>"#;
    let location = parse_favicon_url(html, "https://www.example.com/").unwrap();
    assert!(matches!(location.mime_type, MimeType::ImageXIcon));
}

#[test]
fn apple_touch_icon_is_always_png() {
    let html = r#"<html><head>
        <link rel="apple-touch-icon" sizes="180x180" href="/apple.jpg" type="image/jpeg">
    </head></html>"#;
    let location = parse_favicon_url(html, "https://www.example.com/").unwrap();
    assert_eq!(location.url, "https://www.example.com/apple.jpg");
    assert!(matches!(location.mime_type, MimeType::ImagePng));
}
