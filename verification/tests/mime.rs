use favicon_resolver::favicon::Favicon;
use favicon_resolver::mime_type::{generate_data_uri, MimeType};

#[test]
fn classify_known_types() {
    assert!(matches!(MimeType::from_str("image/png"), MimeType::ImagePng));
    assert!(matches!(MimeType::from_str("image/svg+xml"), MimeType::ImageSvgXml));
    assert!(matches!(MimeType::from_str("image/x-icon"), MimeType::ImageXIcon));
    assert!(matches!(
        MimeType::from_str("image/vnd.microsoft.icon"),
        MimeType::ImageVndMicrosoftIcon
    ));
    assert!(matches!(MimeType::from_str("image/gif"), MimeType::ImageGif));
    assert!(matches!(MimeType::from_str("image/jpeg"), MimeType::ImageJpeg));
    assert!(matches!(MimeType::from_str("image/webp"), MimeType::ImageWebp));
}

#[test]
fn classify_unknown_keeps_raw_text() {
    let m = MimeType::from_str("application/unknown-icon");
    match m {
        MimeType::Unknown(raw) => assert_eq!(raw, "application/unknown-icon"),
        _ => panic!("expected an unknown kind"),
    }
}

#[test]
fn classify_is_case_sensitive_and_exact() {
    assert!(matches!(MimeType::from_str("IMAGE/PNG"), MimeType::Unknown(_)));
    assert!(matches!(MimeType::from_str("image/PNG"), MimeType::Unknown(_)));
    assert!(matches!(MimeType::from_str("image/png "), MimeType::Unknown(_)));
    assert!(matches!(
        MimeType::from_str("image/png; charset=utf-8"),
        MimeType::Unknown(_)
    ));
    assert!(matches!(MimeType::from_str(""), MimeType::Unknown(_)));
}

#[test]
fn as_str_gives_canonical_text() {
    assert_eq!(MimeType::ImagePng.as_str(), "image/png");
    assert_eq!(MimeType::ImageSvgXml.as_str(), "image/svg+xml");
    assert_eq!(MimeType::ImageXIcon.as_str(), "image/x-icon");
    assert_eq!(MimeType::ImageVndMicrosoftIcon.as_str(), "image/vnd.microsoft.icon");
    assert_eq!(MimeType::ImageGif.as_str(), "image/gif");
    assert_eq!(MimeType::ImageJpeg.as_str(), "image/jpeg");
    assert_eq!(MimeType::ImageWebp.as_str(), "image/webp");
    assert_eq!(MimeType::Unknown(String::from("text/plain")).as_str(), "text/plain");
}

#[test]
fn data_uri_png_is_base64() {
    let favicon = Favicon { data: b"hello".to_vec(), mime_type: MimeType::ImagePng };
    let uri = generate_data_uri(&favicon).unwrap();
    assert_eq!(uri, "data:image/png;base64,aGVsbG8=");
}

#[test]
fn data_uri_svg_embeds_text() {
    let favicon = Favicon { data: b"<svg/>".to_vec(), mime_type: MimeType::ImageSvgXml };
    let uri = generate_data_uri(&favicon).unwrap();
    assert_eq!(uri, "data:image/svg+xml;utf8,<svg/>");
}

#[test]
fn data_uri_svg_replaces_invalid_utf8() {
    let favicon = Favicon { data: vec![0xff], mime_type: MimeType::ImageSvgXml };
    let uri = generate_data_uri(&favicon).unwrap();
    assert_eq!(uri, "data:image/svg+xml;utf8,\u{fffd}");
}

#[test]
fn data_uri_ico_aliases_share_one_label() {
    let favicon = Favicon { data: vec![0, 1, 2], mime_type: MimeType::ImageXIcon };
    assert_eq!(generate_data_uri(&favicon).unwrap(), "data:image/x-icon;base64,AAEC");
    let favicon = Favicon { data: vec![0, 1, 2], mime_type: MimeType::ImageVndMicrosoftIcon };
    assert_eq!(generate_data_uri(&favicon).unwrap(), "data:image/x-icon;base64,AAEC");
}

#[test]
fn data_uri_other_binary_kinds() {
    let favicon = Favicon { data: b"gif".to_vec(), mime_type: MimeType::ImageGif };
    assert_eq!(generate_data_uri(&favicon).unwrap(), "data:image/gif;base64,Z2lm");
    let favicon = Favicon { data: b"jpg".to_vec(), mime_type: MimeType::ImageJpeg };
    assert_eq!(generate_data_uri(&favicon).unwrap(), "data:image/jpeg;base64,anBn");
    let favicon = Favicon { data: b"web".to_vec(), mime_type: MimeType::ImageWebp };
    assert_eq!(generate_data_uri(&favicon).unwrap(), "data:image/webp;base64,d2Vi");
}

#[test]
fn data_uri_unknown_kind_is_never_encoded() {
    let favicon = Favicon {
        data: b"anything".to_vec(),
        mime_type: MimeType::Unknown(String::from("application/unknown-icon")),
    };
    assert!(generate_data_uri(&favicon).is_none());
}
